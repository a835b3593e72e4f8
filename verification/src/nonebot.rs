use vstd::prelude::*;

use crate::errors::RefreshError;
use crate::storage;
use crate::storage::Store;

verus! {

/// One entry of the remote adapter registry. `data_json` holds the complete
/// original JSON element verbatim; the two other fields are extracted from it
/// at decode time so the store can index them, and are never reconstructed
/// from the payload afterwards.
pub struct Adapter {
    pub python_package_name: String,
    pub module_name: String,
    pub data_json: String,
}

impl View for Adapter {
    type V = (Seq<char>, Seq<char>, Seq<char>);

    open spec fn view(&self) -> Self::V {
        (self.python_package_name@, self.module_name@, self.data_json@)
    }
}

/// One entry of the remote plugin registry; structurally identical to an
/// adapter entry, kept apart because it lives in a table of its own.
pub struct Plugin {
    pub python_package_name: String,
    pub module_name: String,
    pub data_json: String,
}

impl View for Plugin {
    type V = (Seq<char>, Seq<char>, Seq<char>);

    open spec fn view(&self) -> Self::V {
        (self.python_package_name@, self.module_name@, self.data_json@)
    }
}

/// The verbatim texts of the elements of a registry response body, in order,
/// when the body is a JSON array; nothing otherwise.
pub uninterp spec fn json_array_elements(body: Seq<char>) -> Option<Seq<Seq<char>>>;

/// The two required string fields of one registry element — the package
/// identifier (under its source name `project_link`) and the module name —
/// when the element is a JSON object carrying both; nothing otherwise.
pub uninterp spec fn registry_entry_fields(element: Seq<char>) -> Option<(Seq<char>, Seq<char>)>;

/// Relies on `serde_json::from_str::<Vec<Box<RawValue>>>`: splits a JSON
/// array into the verbatim text of its elements, in the order received, and
/// yields nothing when the body is not a JSON array.
#[verifier::external_body]
fn split_json_array(body: &str) -> (r: Option<Vec<String>>)
    ensures
        (match r {
            Some(elems) => json_array_elements(body@) == Some(
                elems@.map_values(|e: String| e@),
            ),
            None => json_array_elements(body@) is None,
        }),
{
    match serde_json::from_str::<Vec<Box<serde_json::value::RawValue>>>(body) {
        Ok(elems) => Some(elems.into_iter().map(|e| e.get().to_string()).collect()),
        Err(_) => None,
    }
}

/// Relies on `serde_json::from_str::<Value>`, `Value::get` and
/// `Value::as_str`: decodes one registry element to its two required string
/// fields, `project_link` and `module_name`, and yields nothing when the
/// element is not an object or either field is missing or not a string.
#[verifier::external_body]
fn decode_entry_fields(element: &str) -> (r: Option<(String, String)>)
    ensures
        (match r {
            Some(fields) => registry_entry_fields(element@) == Some((fields.0@, fields.1@)),
            None => registry_entry_fields(element@) is None,
        }),
{
    let value: serde_json::Value = match serde_json::from_str(element) {
        Ok(value) => value,
        Err(_) => return None,
    };
    match (value.get("project_link"), value.get("module_name")) {
        (Some(package), Some(module)) => match (package.as_str(), module.as_str()) {
            (Some(package), Some(module)) => Some((package.to_string(), module.to_string())),
            _ => None,
        },
        _ => None,
    }
}

/// Whether one registry element carries both required fields.
pub open spec fn element_decodes(element: Seq<char>) -> bool {
    registry_entry_fields(element) is Some
}

/// Whether every element of a registry body decodes. A single failing
/// element aborts the whole refresh: there is no partial acceptance.
pub open spec fn all_elements_decode(elems: Seq<Seq<char>>) -> bool {
    forall|i: int| 0 <= i < elems.len() ==> element_decodes(#[trigger] elems[i])
}

/// The decoded form of one registry element: its two extracted fields and
/// the element itself, retained verbatim as the stored payload.
pub open spec fn decoded_entry(element: Seq<char>) -> (Seq<char>, Seq<char>, Seq<char>)
    recommends
        element_decodes(element),
{
    let fields = registry_entry_fields(element)->0;
    (fields.0, fields.1, element)
}

/// The decoded form of a whole registry body.
pub open spec fn decoded_entries(elems: Seq<Seq<char>>) -> Seq<(Seq<char>, Seq<char>, Seq<char>)> {
    elems.map_values(|e: Seq<char>| decoded_entry(e))
}

/// Decodes the body of an adapter registry response. The whole body is
/// accepted or the whole body is rejected: a top level that is not a JSON
/// array is a fetch-level failure, and one undecodable element fails the
/// refresh without yielding any entry.
pub fn decode_adapters(body: &str) -> (r: Result<Vec<Adapter>, RefreshError>)
    ensures
        (match r {
            Ok(adapters) => {
                &&& json_array_elements(body@) matches Some(elems)
                &&& all_elements_decode(elems)
                &&& adapters@.map_values(|a: Adapter| a@) == decoded_entries(elems)
            },
            Err(RefreshError::FetchFailed) => json_array_elements(body@) is None,
            Err(RefreshError::DecodeFailed) => {
                &&& json_array_elements(body@) matches Some(elems)
                &&& !all_elements_decode(elems)
            },
        }),
{
    let elems = match split_json_array(body) {
        Some(elems) => elems,
        None => { return Err(RefreshError::FetchFailed); },
    };
    let ghost eseq = elems@.map_values(|e: String| e@);
    let mut adapters: Vec<Adapter> = Vec::new();
    let mut i: usize = 0;
    while i < elems.len()
        invariant
            i <= elems@.len(),
            eseq == elems@.map_values(|e: String| e@),
            json_array_elements(body@) == Some(eseq),
            adapters@.len() == i,
            forall|j: int| 0 <= j < i ==> element_decodes(#[trigger] eseq[j]),
            forall|j: int| 0 <= j < i ==> (#[trigger] adapters@[j])@ == decoded_entry(eseq[j]),
        decreases elems@.len() - i,
    {
        let fields = match decode_entry_fields(elems[i].as_str()) {
            Some(fields) => fields,
            None => {
                proof {
                    assert(eseq[i as int] == elems@[i as int]@);
                    assert(!all_elements_decode(eseq)) by {
                        assert(!element_decodes(eseq[i as int]));
                    }
                }
                return Err(RefreshError::DecodeFailed);
            },
        };
        let data_json = elems[i].clone();
        adapters.push(Adapter {
            python_package_name: fields.0,
            module_name: fields.1,
            data_json,
        });
        i += 1;
    }
    proof {
        assert(adapters@.map_values(|a: Adapter| a@) =~= decoded_entries(eseq));
    }
    Ok(adapters)
}

/// Decodes the body of a plugin registry response, exactly as
/// [`decode_adapters`] does for adapters.
pub fn decode_plugins(body: &str) -> (r: Result<Vec<Plugin>, RefreshError>)
    ensures
        (match r {
            Ok(plugins) => {
                &&& json_array_elements(body@) matches Some(elems)
                &&& all_elements_decode(elems)
                &&& plugins@.map_values(|p: Plugin| p@) == decoded_entries(elems)
            },
            Err(RefreshError::FetchFailed) => json_array_elements(body@) is None,
            Err(RefreshError::DecodeFailed) => {
                &&& json_array_elements(body@) matches Some(elems)
                &&& !all_elements_decode(elems)
            },
        }),
{
    let elems = match split_json_array(body) {
        Some(elems) => elems,
        None => { return Err(RefreshError::FetchFailed); },
    };
    let ghost eseq = elems@.map_values(|e: String| e@);
    let mut plugins: Vec<Plugin> = Vec::new();
    let mut i: usize = 0;
    while i < elems.len()
        invariant
            i <= elems@.len(),
            eseq == elems@.map_values(|e: String| e@),
            json_array_elements(body@) == Some(eseq),
            plugins@.len() == i,
            forall|j: int| 0 <= j < i ==> element_decodes(#[trigger] eseq[j]),
            forall|j: int| 0 <= j < i ==> (#[trigger] plugins@[j])@ == decoded_entry(eseq[j]),
        decreases elems@.len() - i,
    {
        let fields = match decode_entry_fields(elems[i].as_str()) {
            Some(fields) => fields,
            None => {
                proof {
                    assert(eseq[i as int] == elems@[i as int]@);
                    assert(!all_elements_decode(eseq)) by {
                        assert(!element_decodes(eseq[i as int]));
                    }
                }
                return Err(RefreshError::DecodeFailed);
            },
        };
        let data_json = elems[i].clone();
        plugins.push(Plugin {
            python_package_name: fields.0,
            module_name: fields.1,
            data_json,
        });
        i += 1;
    }
    proof {
        assert(plugins@.map_values(|p: Plugin| p@) =~= decoded_entries(eseq));
    }
    Ok(plugins)
}


/// Refreshes the local adapter mirror from a fetched registry body: the body
/// is decoded whole and the stored set is replaced whole. Any failure leaves
/// the prior stored data untouched — the store is never left empty or mixed.
pub fn update_adapter_index(store: &mut Store, body: &str) -> (r: Result<(), RefreshError>)
    ensures
        (match r {
            Ok(()) => {
                &&& json_array_elements(body@) matches Some(elems)
                &&& all_elements_decode(elems)
                &&& final(store).adapters@.map_values(|a: Adapter| a@) == decoded_entries(elems)
                &&& final(store).plugins == old(store).plugins
                &&& final(store).instances == old(store).instances
                &&& final(store).next_id == old(store).next_id
            },
            Err(RefreshError::FetchFailed) => {
                &&& json_array_elements(body@) is None
                &&& *final(store) == *old(store)
            },
            Err(RefreshError::DecodeFailed) => {
                &&& json_array_elements(body@) matches Some(elems)
                &&& !all_elements_decode(elems)
                &&& *final(store) == *old(store)
            },
        }),
{
    match decode_adapters(body) {
        Ok(adapters) => {
            storage::save_adapters(store, adapters);
            Ok(())
        },
        Err(e) => Err(e),
    }
}

/// Refreshes the local plugin mirror, exactly as [`update_adapter_index`]
/// refreshes the adapter mirror.
pub fn update_plugin_index(store: &mut Store, body: &str) -> (r: Result<(), RefreshError>)
    ensures
        (match r {
            Ok(()) => {
                &&& json_array_elements(body@) matches Some(elems)
                &&& all_elements_decode(elems)
                &&& final(store).plugins@.map_values(|p: Plugin| p@) == decoded_entries(elems)
                &&& final(store).adapters == old(store).adapters
                &&& final(store).instances == old(store).instances
                &&& final(store).next_id == old(store).next_id
            },
            Err(RefreshError::FetchFailed) => {
                &&& json_array_elements(body@) is None
                &&& *final(store) == *old(store)
            },
            Err(RefreshError::DecodeFailed) => {
                &&& json_array_elements(body@) matches Some(elems)
                &&& !all_elements_decode(elems)
                &&& *final(store) == *old(store)
            },
        }),
{
    match decode_plugins(body) {
        Ok(plugins) => {
            storage::save_plugins(store, plugins);
            Ok(())
        },
        Err(e) => Err(e),
    }
}

/// Every stored adapter payload, verbatim, in storage order.
pub fn get_adapters(store: &Store) -> (r: Vec<String>)
    ensures
        r@.map_values(|s: String| s@) == store.adapters@.map_values(|a: Adapter| a.data_json@),
{
    storage::load_adapters(store)
}

/// Every stored plugin payload, verbatim, in storage order.
pub fn get_plugins(store: &Store) -> (r: Vec<String>)
    ensures
        r@.map_values(|s: String| s@) == store.plugins@.map_values(|p: Plugin| p.data_json@),
{
    storage::load_plugins(store)
}

} // verus!
