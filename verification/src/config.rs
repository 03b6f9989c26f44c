//! The bootstrap configuration record loaded once at start-up.

use crate::json::{json_string_field, spec_text_field, string_field};
use vstd::prelude::*;

verus! {

/// What the endpoint needs to know before it can bind an identity: the local
/// account handle, the remote coordination service's address, that service's
/// own network identity, and the alias to register under.
pub struct ConfigFile {
    pub ring_id: String,
    pub rori_server: String,
    pub rori_ring_id: String,
    pub username: String,
}

/// The mathematical content of a `ConfigFile`.
pub struct ConfigFileView {
    pub ring_id: Seq<char>,
    pub rori_server: Seq<char>,
    pub rori_ring_id: Seq<char>,
    pub username: Seq<char>,
}

impl View for ConfigFile {
    type V = ConfigFileView;

    open spec fn view(&self) -> ConfigFileView {
        ConfigFileView {
            ring_id: self.ring_id@,
            rori_server: self.rori_server@,
            rori_ring_id: self.rori_ring_id@,
            username: self.username@,
        }
    }
}

/// The configuration carried by a JSON document: each field is the string
/// stored under its own name, or empty where the document does not supply it.
pub open spec fn spec_config_of_text(doc: Seq<char>) -> ConfigFileView {
    ConfigFileView {
        ring_id: spec_text_field(doc, "ring_id"@),
        rori_server: spec_text_field(doc, "rori_server"@),
        rori_ring_id: spec_text_field(doc, "rori_ring_id"@),
        username: spec_text_field(doc, "username"@),
    }
}

impl ConfigFile {
    /// Decodes the configuration from the text of a configuration document.
    /// A field that the document lacks, or holds as anything but a string,
    /// comes back empty.
    pub fn from_json_text(doc: &str) -> (r: ConfigFile)
        ensures
            r@ == spec_config_of_text(doc@),
    {
        ConfigFile {
            ring_id: text_field(doc, "ring_id"),
            rori_server: text_field(doc, "rori_server"),
            rori_ring_id: text_field(doc, "rori_ring_id"),
            username: text_field(doc, "username"),
        }
    }
}

/// The string under `key` in `doc`, or the empty string where there is none.
fn text_field(doc: &str, key: &str) -> (r: String)
    ensures
        r@ == spec_text_field(doc@, key@),
{
    match string_field(doc, key) {
        Option::Some(v) => v,
        Option::None => String::new(),
    }
}

} // verus!
