//! The two settings that the plugin reads from its initialization options.

use crate::json::{items, json_items, json_member, json_text, member, text};
use serde_json::Value;
use vstd::prelude::*;

verus! {

/// What the initialization options say about the server, before any default
/// is applied.
#[derive(Debug, Clone, PartialEq, Eq)]
pub struct Settings {
    /// The elements of the `serverArgs` array, each with its string where it
    /// is one. `None` where the options hold no such array.
    pub listed_args: Option<Vec<Option<String>>>,
    /// The `serverPath` string. `None` where the options hold no such string.
    pub listed_path: Option<String>,
}

/// The elements of the array under `serverArgs`, each as the string it holds
/// or `None` for an element of another kind.
pub open spec fn listed_args_of(options: Value) -> Option<Seq<Option<Seq<char>>>> {
    match json_member(options, "serverArgs"@) {
        Some(entry) => match json_items(entry) {
            Some(list) => Some(list.map_values(|v: Value| json_text(v))),
            None => None,
        },
        None => None,
    }
}

/// The string under `serverPath`.
pub open spec fn listed_path_of(options: Value) -> Option<Seq<char>> {
    match json_member(options, "serverPath"@) {
        Some(entry) => json_text(entry),
        None => None,
    }
}

impl Settings {
    /// The listed arguments as sequences of characters.
    pub open spec fn args(&self) -> Option<Seq<Option<Seq<char>>>> {
        self.listed_args.deep_view()
    }

    /// The listed path as a sequence of characters.
    pub open spec fn path(&self) -> Option<Seq<char>> {
        self.listed_path.deep_view()
    }

    /// Whether these settings are the ones that `options` hold.
    pub open spec fn read_from(&self, options: Value) -> bool {
        &&& self.args() == listed_args_of(options)
        &&& self.path() == listed_path_of(options)
    }

    /// Reads the settings out of the initialization options. Options of any
    /// shape are accepted: what is missing or of another kind reads as `None`.
    pub fn read(options: &Value) -> (r: Settings)
        ensures
            r.read_from(*options),
    {
        Settings { listed_args: read_args(options), listed_path: read_path(options) }
    }
}

/// Reads the `serverArgs` array.
pub fn read_args(options: &Value) -> (r: Option<Vec<Option<String>>>)
    ensures
        r.deep_view() == listed_args_of(*options),
{
    let entry = match member(options, "serverArgs") {
        Some(entry) => entry,
        None => { return None; },
    };
    let list = match items(entry) {
        Some(list) => list,
        None => { return None; },
    };
    let mut out: Vec<Option<String>> = Vec::new();
    let mut i: usize = 0;
    while i < list.len()
        invariant
            i <= list@.len(),
            out@.len() == i,
            forall|k: int| 0 <= k < i ==> (#[trigger] out@[k]).deep_view() == json_text(list@[k]),
        decreases list@.len() - i,
    {
        let element = match text(&list[i]) {
            Some(s) => Some(s.to_owned()),
            None => None,
        };
        out.push(element);
        i += 1;
    }
    proof {
        assert(out.deep_view() =~= list@.map_values(|v: Value| json_text(v)));
    }
    Some(out)
}

/// Reads the `serverPath` string.
pub fn read_path(options: &Value) -> (r: Option<String>)
    ensures
        r.deep_view() == listed_path_of(*options),
{
    match member(options, "serverPath") {
        Some(entry) => match text(entry) {
            Some(s) => Some(s.to_owned()),
            None => None,
        },
        None => None,
    }
}

} // verus!
