//! In-memory editor for a libomtnet-compatible `settings.xml`.
//!
//! Reading and writing the file happens outside this module: the editor is
//! filled from the values a settings store reports ([`StoredSettings`]) and
//! produces a [`SavePlan`] telling the caller what to change in the store.

use std::path::PathBuf;

use vstd::prelude::*;

use crate::entries::{
    clone_entry, entries_view, entry_view, has_key, sort_by_key, sorted_entries,
};
use crate::text::{
    before_first, decimal, index_of_last, is_xml_name, joined, owned,
    parse_u32, starts_with, text_before_first, text_eq, text_index_of_last, text_starts_with,
    trim, trimmed, u16_to_text, u32_to_text, xml_name,
};

verus! {

/// `std::path::PathBuf`, the editor's file path: carried through, never
/// looked into.
#[verifier::external_type_specification]
#[verifier::external_body]
pub struct ExPathBuf(PathBuf);

/// `PathBuf::clone`, used by the derived `Clone` of the editor; nothing is
/// claimed about the copy.
pub assume_specification[ <PathBuf as Clone>::clone ](p: &PathBuf) -> PathBuf;

/// Name of `std`'s `Debug` rendering of a string (quoted, with escapes).
pub uninterp spec fn debug_text(s: Seq<char>) -> Seq<char>;

/// `format!("{s:?}")`: the `Debug` rendering of `s`.
#[verifier::external_body]
fn debug_quoted(s: &str) -> (r: String)
    ensures
        r@ == debug_text(s@),
{
    format!("{s:?}")
}

/// Key holding the discovery server URL.
pub open spec fn key_discovery_server() -> Seq<char> {
    "DiscoveryServer"@
}

/// Key holding the first sender port.
pub open spec fn key_port_start() -> Seq<char> {
    "NetworkPortStart"@
}

/// Key holding the last sender port.
pub open spec fn key_port_end() -> Seq<char> {
    "NetworkPortEnd"@
}

/// Keys that have a dedicated field in the editor.
pub open spec fn is_known_key(k: Seq<char>) -> bool {
    k == key_discovery_server() || k == key_port_start() || k == key_port_end()
}

pub fn known_key(k: &str) -> (b: bool)
    ensures
        b == is_known_key(k@),
{
    text_eq(k, "DiscoveryServer") || text_eq(k, "NetworkPortStart") || text_eq(
        k,
        "NetworkPortEnd",
    )
}

/// Message of every port error: the field's label, then this.
pub open spec fn port_range_suffix() -> Seq<char> {
    " must be an integer from 1 to 65535"@
}

/// Value of a port field: `raw` trimmed and parsed as an integer from 1 to 65535.
pub open spec fn port_value(raw: Seq<char>) -> Option<u16> {
    match parse_u32(trim(raw)) {
        Some(v) => if 1 <= v && v <= 65535 {
            Some(v as u16)
        } else {
            None
        },
        None => None,
    }
}

/// Parse a port field; the error names the field by `label`.
pub fn parse_port(raw: &str, label: &str) -> (r: Result<u16, String>)
    ensures
        r matches Ok(p) ==> port_value(raw@) == Some(p),
        r matches Err(m) ==> port_value(raw@) is None && m@ == label@ + port_range_suffix(),
{
    let t = trimmed(raw);
    match crate::text::parse_u32_text(t.as_str()) {
        Some(v) => {
            if 1 <= v && v <= 65535 {
                Ok(v as u16)
            } else {
                Err(joined(label, " must be an integer from 1 to 65535"))
            }
        },
        None => Err(joined(label, " must be an integer from 1 to 65535")),
    }
}

/// Discovery URLs must use this scheme.
pub open spec fn omt_scheme() -> Seq<char> {
    "omt://"@
}

pub open spec fn msg_url_format() -> Seq<char> {
    "Discovery Server must be empty (DNS-SD) or omt://host:port"@
}

pub open spec fn msg_host_missing() -> Seq<char> {
    "Discovery Server host is missing"@
}

pub open spec fn label_discovery_port() -> Seq<char> {
    "Discovery Server port"@
}

/// Why a `DiscoveryServer` value is rejected, if it is: it must be empty
/// (DNS-SD) or `omt://host[:port][/...]` with a non-empty host and, when a
/// `:port` is given, a port from 1 to 65535.
pub open spec fn discovery_url_error(raw: Seq<char>) -> Option<Seq<char>> {
    let t = trim(raw);
    if t.len() == 0 {
        None
    } else if !starts_with(t, omt_scheme()) {
        Some(msg_url_format())
    } else {
        let authority = before_first(t.skip(omt_scheme().len() as int), '/');
        if authority.len() == 0 {
            Some(msg_host_missing())
        } else {
            match index_of_last(authority, ':') {
                None => None,
                Some(i) => {
                    let host = authority.take(i);
                    let port = authority.skip(i + 1);
                    if host.len() == 0 || host == "["@ {
                        Some(msg_host_missing())
                    } else if port_value(port) is None {
                        Some(label_discovery_port() + port_range_suffix())
                    } else {
                        None
                    }
                },
            }
        }
    }
}

/// Check a `DiscoveryServer` value.
pub fn validate_discovery_url(raw: &str) -> (r: Result<(), String>)
    ensures
        r is Ok <==> discovery_url_error(raw@) is None,
        r matches Err(m) ==> discovery_url_error(raw@) == Some(m@),
{
    let t = trimmed(raw);
    let t = t.as_str();
    if t.unicode_len() == 0 {
        return Ok(());
    }
    if !text_starts_with(t, "omt://") {
        return Err(owned("Discovery Server must be empty (DNS-SD) or omt://host:port"));
    }
    proof {
        reveal_strlit("omt://");
    }
    let rest = t.substring_char(6, t.unicode_len());
    assert(rest@ == t@.skip(omt_scheme().len() as int));
    let authority = text_before_first(rest, '/');
    if authority.unicode_len() == 0 {
        return Err(owned("Discovery Server host is missing"));
    }
    match text_index_of_last(authority, ':') {
        None => Ok(()),
        Some(i) => {
            let host = authority.substring_char(0, i);
            let port = authority.substring_char(i + 1, authority.unicode_len());
            assert(host@ == authority@.take(i as int));
            assert(port@ == authority@.skip(i + 1));
            if host.unicode_len() == 0 || text_eq(host, "[") {
                return Err(owned("Discovery Server host is missing"));
            }
            match parse_port(port, "Discovery Server port") {
                Ok(_) => Ok(()),
                Err(m) => Err(m),
            }
        },
    }
}

} // verus!

verus! {

/// Editable view of a `settings.xml` file.
#[derive(Debug, Clone)]
pub struct SettingsEditor {
    /// Absolute path of the XML file.
    pub path: PathBuf,
    /// `DiscoveryServer` value (`omt://host:port` or empty for DNS-SD).
    pub discovery_server: String,
    /// `NetworkPortStart` as edited text.
    pub port_start: String,
    /// `NetworkPortEnd` as edited text.
    pub port_end: String,
    /// Unknown / extra keys, in sorted order.
    pub extras: Vec<(String, String)>,
    /// Draft key for the add-row form.
    pub new_key: String,
    /// Draft value for the add-row form.
    pub new_value: String,
    /// Last success message.
    pub status: Option<String>,
    /// Last error / validation message. Save is blocked while unreadable.
    pub error: Option<String>,
    /// True when the on-disk file could not be read.
    pub unreadable: bool,
}

pub open spec fn opt_view(o: Option<String>) -> Option<Seq<char>> {
    match o {
        Some(s) => Some(s@),
        None => None,
    }
}

pub open spec fn msg_unreadable() -> Seq<char> {
    "file could not be read; fix permissions and reload before saving"@
}

pub open spec fn msg_port_order() -> Seq<char> {
    "Sender port start must be less than or equal to port end"@
}

pub open spec fn label_port_start() -> Seq<char> {
    "Sender port start"@
}

pub open spec fn label_port_end() -> Seq<char> {
    "Sender port end"@
}

/// Message for an extra key that is not an XML name.
pub open spec fn msg_invalid_extra_key(k: Seq<char>) -> Seq<char> {
    "invalid extra key "@ + debug_text(k)
}

/// Message for an extra key that has a dedicated field.
pub open spec fn msg_dedicated_key(k: Seq<char>) -> Seq<char> {
    k + " is a dedicated field; remove it from extra keys"@
}

/// First problem among the extra keys, scanning from the front.
pub open spec fn extras_error(s: Seq<(Seq<char>, Seq<char>)>) -> Option<Seq<char>>
    decreases s.len(),
{
    if s.len() == 0 {
        None
    } else if !xml_name(s[0].0) {
        Some(msg_invalid_extra_key(s[0].0))
    } else if is_known_key(s[0].0) {
        Some(msg_dedicated_key(s[0].0))
    } else {
        extras_error(s.drop_first())
    }
}

impl SettingsEditor {
    /// The first reason the fields cannot be saved, in the order they are
    /// checked; `None` when they are valid.
    pub open spec fn validation_error(&self) -> Option<Seq<char>> {
        if self.unreadable {
            Some(msg_unreadable())
        } else if discovery_url_error(self.discovery_server@) is Some {
            discovery_url_error(self.discovery_server@)
        } else if port_value(self.port_start@) is None {
            Some(label_port_start() + port_range_suffix())
        } else if port_value(self.port_end@) is None {
            Some(label_port_end() + port_range_suffix())
        } else if port_value(self.port_start@).unwrap() > port_value(self.port_end@).unwrap() {
            Some(msg_port_order())
        } else {
            extras_error(entries_view(self.extras@))
        }
    }

    /// Validate fields without writing.
    pub fn validate(&self) -> (r: Result<(), String>)
        ensures
            r is Ok <==> self.validation_error() is None,
            r matches Err(m) ==> self.validation_error() == Some(m@),
    {
        if self.unreadable {
            return Err(owned("file could not be read; fix permissions and reload before saving"));
        }
        validate_discovery_url(self.discovery_server.as_str())?;
        let start = parse_port(self.port_start.as_str(), "Sender port start")?;
        let end = parse_port(self.port_end.as_str(), "Sender port end")?;
        if start > end {
            return Err(owned("Sender port start must be less than or equal to port end"));
        }
        let ghost s = entries_view(self.extras@);
        let mut i: usize = 0;
        assert(s.skip(0) =~= s);
        while i < self.extras.len()
            invariant
                i <= self.extras.len(),
                s == entries_view(self.extras@),
                extras_error(s) == extras_error(s.skip(i as int)),
                self.validation_error() == extras_error(s),
            decreases self.extras.len() - i,
        {
            let key = self.extras[i].0.as_str();
            proof {
                let t = s.skip(i as int);
                assert(t[0] == entry_view(self.extras@[i as int]));
                assert(t.drop_first() =~= s.skip(i + 1));
            }
            if !is_xml_name(key) {
                let mut m = owned("invalid extra key ");
                m.append(debug_quoted(key).as_str());
                return Err(m);
            }
            if known_key(key) {
                return Err(joined(key, " is a dedicated field; remove it from extra keys"));
            }
            i = i + 1;
        }
        assert(s.skip(i as int).len() == 0);
        Ok(())
    }
}

} // verus!

verus! {

pub open spec fn msg_add_invalid() -> Seq<char> {
    "key must be a valid XML name (letter or _ first)"@
}

pub open spec fn msg_exists(k: Seq<char>) -> Seq<char> {
    k + " already exists"@
}

/// The pairs of `s` whose key has no dedicated field, in order.
pub open spec fn extra_entries(s: Seq<(Seq<char>, Seq<char>)>) -> Seq<(Seq<char>, Seq<char>)>
    decreases s.len(),
{
    if s.len() == 0 {
        s
    } else if is_known_key(s.last().0) {
        extra_entries(s.drop_last())
    } else {
        extra_entries(s.drop_last()).push(s.last())
    }
}

/// Values a settings store reports for the editor: the `DiscoveryServer`
/// string (empty when absent), the sender port range after the store's own
/// defaults, and every key/value pair in key order.
#[derive(Debug, Clone)]
pub struct StoredSettings {
    pub discovery_server: String,
    pub port_start: u16,
    pub port_end: u16,
    pub entries: Vec<(String, String)>,
}

/// Outcome of reading the settings file.
#[derive(Debug, Clone)]
pub enum SettingsRead {
    /// The file exists but could not be read; the message says why.
    Unreadable(String),
    /// The store's values (a missing file reads as an empty store).
    Loaded(StoredSettings),
}

/// What saving changes in the settings store: drop `remove`, then set the
/// dedicated keys and every extra pair, in order.
#[derive(Debug, Clone)]
pub struct SavePlan {
    pub remove: Vec<String>,
    pub discovery_server: String,
    pub port_start: u16,
    pub port_end: u16,
    pub extras: Vec<(String, String)>,
}

/// Keys of the store that saving drops: those that are neither dedicated
/// fields nor extra keys, in store order.
pub open spec fn keys_to_remove(keys: Seq<Seq<char>>, extras: Seq<(Seq<char>, Seq<char>)>) -> Seq<
    Seq<char>,
>
    decreases keys.len(),
{
    if keys.len() == 0 {
        keys
    } else if is_known_key(keys.last()) || has_key(extras, keys.last()) {
        keys_to_remove(keys.drop_last(), extras)
    } else {
        keys_to_remove(keys.drop_last(), extras).push(keys.last())
    }
}

pub open spec fn strings_view(v: Seq<String>) -> Seq<Seq<char>> {
    v.map_values(|s: String| s@)
}

fn extras_have_key(v: &Vec<(String, String)>, k: &str) -> (b: bool)
    ensures
        b == has_key(entries_view(v@), k@),
{
    let mut i: usize = 0;
    while i < v.len()
        invariant
            i <= v.len(),
            forall|j: int| 0 <= j < i ==> (#[trigger] entries_view(v@)[j]).0 != k@,
        decreases v.len() - i,
    {
        if text_eq(v[i].0.as_str(), k) {
            assert(entries_view(v@)[i as int].0 == k@);
            return true;
        }
        i = i + 1;
    }
    false
}

impl SettingsEditor {
    /// A fresh editor for `path`, with the sender port range at the OMT
    /// defaults, before anything is read.
    pub fn new(path: PathBuf) -> (e: Self)
        ensures
            e.path == path,
            e.discovery_server@ == Seq::<char>::empty(),
            e.port_start@ == decimal(6400),
            e.port_end@ == decimal(6600),
            e.extras@.len() == 0,
            e.new_key@ == Seq::<char>::empty(),
            e.new_value@ == Seq::<char>::empty(),
            e.status is None,
            e.error is None,
            !e.unreadable,
    {
        SettingsEditor {
            path,
            discovery_server: String::new(),
            port_start: u32_to_text(6400),
            port_end: u32_to_text(6600),
            extras: Vec::new(),
            new_key: String::new(),
            new_value: String::new(),
            status: None,
            error: None,
            unreadable: false,
        }
    }

    /// Replace the fields with what was read. Clears the status and error; an
    /// unreadable file only sets the error and the `unreadable` flag.
    pub fn reload_from(&mut self, read: SettingsRead)
        ensures
            final(self).path == old(self).path,
            final(self).new_key == old(self).new_key,
            final(self).new_value == old(self).new_value,
            final(self).status is None,
            match read {
                SettingsRead::Unreadable(m) => {
                    &&& final(self).unreadable
                    &&& opt_view(final(self).error) == Some(m@)
                    &&& final(self).discovery_server == old(self).discovery_server
                    &&& final(self).port_start == old(self).port_start
                    &&& final(self).port_end == old(self).port_end
                    &&& final(self).extras == old(self).extras
                },
                SettingsRead::Loaded(s) => {
                    &&& !final(self).unreadable
                    &&& final(self).error is None
                    &&& final(self).discovery_server@ == s.discovery_server@
                    &&& final(self).port_start@ == decimal(s.port_start as nat)
                    &&& final(self).port_end@ == decimal(s.port_end as nat)
                    &&& entries_view(final(self).extras@) == extra_entries(entries_view(s.entries@))
                },
            },
    {
        self.status = None;
        self.error = None;
        self.unreadable = false;
        match read {
            SettingsRead::Unreadable(m) => {
                self.unreadable = true;
                self.error = Some(m);
            },
            SettingsRead::Loaded(s) => {
                self.discovery_server = s.discovery_server;
                self.port_start = u16_to_text(s.port_start);
                self.port_end = u16_to_text(s.port_end);
                let mut extras: Vec<(String, String)> = Vec::new();
                let ghost src = entries_view(s.entries@);
                let mut i: usize = 0;
                while i < s.entries.len()
                    invariant
                        i <= s.entries.len(),
                        src == entries_view(s.entries@),
                        entries_view(extras@) == extra_entries(src.take(i as int)),
                    decreases s.entries.len() - i,
                {
                    proof {
                        assert(src.take(i + 1).drop_last() =~= src.take(i as int));
                        assert(src.take(i + 1).last() == entry_view(s.entries@[i as int]));
                    }
                    if !known_key(s.entries[i].0.as_str()) {
                        let e = clone_entry(&s.entries[i]);
                        extras.push(e);
                        assert(entries_view(extras@) =~= extra_entries(src.take(i as int)).push(
                            src[i as int],
                        ));
                    }
                    i = i + 1;
                }
                assert(src.take(s.entries.len() as int) =~= src);
                self.extras = extras;
            },
        }
    }

    /// Re-read the file: as [`Self::reload_from`], then report "Reloaded" when
    /// the read succeeded.
    pub fn reload(&mut self, read: SettingsRead)
        ensures
            final(self).path == old(self).path,
            final(self).new_key == old(self).new_key,
            final(self).new_value == old(self).new_value,
            match read {
                SettingsRead::Unreadable(m) => {
                    &&& final(self).unreadable
                    &&& opt_view(final(self).error) == Some(m@)
                    &&& final(self).status is None
                    &&& final(self).discovery_server == old(self).discovery_server
                    &&& final(self).port_start == old(self).port_start
                    &&& final(self).port_end == old(self).port_end
                    &&& final(self).extras == old(self).extras
                },
                SettingsRead::Loaded(s) => {
                    &&& !final(self).unreadable
                    &&& final(self).error is None
                    &&& opt_view(final(self).status) == Some("Reloaded"@)
                    &&& final(self).discovery_server@ == s.discovery_server@
                    &&& final(self).port_start@ == decimal(s.port_start as nat)
                    &&& final(self).port_end@ == decimal(s.port_end as nat)
                    &&& entries_view(final(self).extras@) == extra_entries(entries_view(s.entries@))
                },
            },
    {
        self.reload_from(read);
        if self.error.is_none() {
            self.status = Some(owned("Reloaded"));
        }
    }

    /// Clear `DiscoveryServer` so clients fall back to DNS-SD.
    pub fn clear_discovery(&mut self)
        ensures
            final(self).discovery_server@ == Seq::<char>::empty(),
            final(self).status is None,
            final(self).error is None,
            final(self).path == old(self).path,
            final(self).port_start == old(self).port_start,
            final(self).port_end == old(self).port_end,
            final(self).extras == old(self).extras,
            final(self).new_key == old(self).new_key,
            final(self).new_value == old(self).new_value,
            final(self).unreadable == old(self).unreadable,
    {
        self.discovery_server = String::new();
        self.status = None;
        self.error = None;
    }

    /// Append the draft extra key (trimmed) with the draft value, keeping the
    /// extras sorted by key. Fails, changing nothing, when the key is not an
    /// XML name or already exists.
    pub fn add_extra(&mut self) -> (r: Result<(), String>)
        ensures
            ({
                let key = trim(old(self).new_key@);
                if !xml_name(key) {
                    &&& r matches Err(m) && m@ == msg_add_invalid()
                    &&& *final(self) == *old(self)
                } else if is_known_key(key) || has_key(entries_view(old(self).extras@), key) {
                    &&& r matches Err(m) && m@ == msg_exists(key)
                    &&& *final(self) == *old(self)
                } else {
                    &&& r is Ok
                    &&& entries_view(final(self).extras@) == sort_by_key(
                        entries_view(old(self).extras@).push((key, old(self).new_value@)),
                    )
                    &&& final(self).new_key@ == Seq::<char>::empty()
                    &&& final(self).new_value@ == Seq::<char>::empty()
                    &&& final(self).error is None
                    &&& final(self).path == old(self).path
                    &&& final(self).discovery_server == old(self).discovery_server
                    &&& final(self).port_start == old(self).port_start
                    &&& final(self).port_end == old(self).port_end
                    &&& final(self).status == old(self).status
                    &&& final(self).unreadable == old(self).unreadable
                }
            }),
    {
        let key = trimmed(self.new_key.as_str());
        if !is_xml_name(key.as_str()) {
            return Err(owned("key must be a valid XML name (letter or _ first)"));
        }
        if known_key(key.as_str()) || extras_have_key(&self.extras, key.as_str()) {
            return Err(joined(key.as_str(), " already exists"));
        }
        let mut all: Vec<(String, String)> = Vec::new();
        let mut i: usize = 0;
        while i < self.extras.len()
            invariant
                i <= self.extras.len(),
                entries_view(all@) == entries_view(self.extras@).take(i as int),
            decreases self.extras.len() - i,
        {
            let e = clone_entry(&self.extras[i]);
            let ghost prev = all@;
            let ghost ev = entry_view(e);
            all.push(e);
            assert(entries_view(all@) =~= entries_view(prev).push(ev));
            assert(entries_view(self.extras@)[i as int] == entry_view(self.extras@[i as int]));
            assert(entries_view(all@) =~= entries_view(self.extras@).take(i + 1));
            i = i + 1;
        }
        assert(entries_view(self.extras@).take(self.extras.len() as int) =~= entries_view(
            self.extras@,
        ));
        let value = self.new_value.clone();
        all.push((key, value));
        assert(entries_view(all@) =~= entries_view(self.extras@).push(
            (trim(self.new_key@), self.new_value@),
        ));
        self.extras = sorted_entries(&all);
        self.new_key = String::new();
        self.new_value = String::new();
        self.error = None;
        Ok(())
    }

    /// Remove an extra key by index; an index past the end changes nothing.
    pub fn remove_extra(&mut self, index: usize)
        ensures
            final(self).extras@ == if index < old(self).extras@.len() {
                old(self).extras@.remove(index as int)
            } else {
                old(self).extras@
            },
            final(self).path == old(self).path,
            final(self).discovery_server == old(self).discovery_server,
            final(self).port_start == old(self).port_start,
            final(self).port_end == old(self).port_end,
            final(self).new_key == old(self).new_key,
            final(self).new_value == old(self).new_value,
            final(self).status == old(self).status,
            final(self).error == old(self).error,
            final(self).unreadable == old(self).unreadable,
    {
        if index < self.extras.len() {
            self.extras.remove(index);
        }
    }
}

} // verus!

verus! {

impl SettingsEditor {
    /// Validate, then say what saving changes in a store that currently holds
    /// `existing_keys`. Nothing is to be written when validation fails.
    pub fn plan_save(&self, existing_keys: &Vec<String>) -> (r: Result<SavePlan, String>)
        ensures
            r is Err <==> self.validation_error() is Some,
            r matches Err(m) ==> self.validation_error() == Some(m@),
            r matches Ok(p) ==> {
                &&& strings_view(p.remove@) == keys_to_remove(
                    strings_view(existing_keys@),
                    entries_view(self.extras@),
                )
                &&& p.discovery_server@ == trim(self.discovery_server@)
                &&& Some(p.port_start) == port_value(self.port_start@)
                &&& Some(p.port_end) == port_value(self.port_end@)
                &&& entries_view(p.extras@) == entries_view(self.extras@)
            },
    {
        self.validate()?;
        let start = parse_port(self.port_start.as_str(), "Sender port start")?;
        let end = parse_port(self.port_end.as_str(), "Sender port end")?;
        let ghost keys = strings_view(existing_keys@);
        let ghost ex = entries_view(self.extras@);
        let mut remove: Vec<String> = Vec::new();
        let mut i: usize = 0;
        while i < existing_keys.len()
            invariant
                i <= existing_keys.len(),
                keys == strings_view(existing_keys@),
                ex == entries_view(self.extras@),
                strings_view(remove@) == keys_to_remove(keys.take(i as int), ex),
            decreases existing_keys.len() - i,
        {
            proof {
                assert(keys.take(i + 1).drop_last() =~= keys.take(i as int));
                assert(keys.take(i + 1).last() == existing_keys@[i as int]@);
            }
            let k = existing_keys[i].as_str();
            if !(known_key(k) || extras_have_key(&self.extras, k)) {
                let ghost prev = remove@;
                remove.push(owned(k));
                assert(strings_view(remove@) =~= strings_view(prev).push(k@));
            }
            i = i + 1;
        }
        assert(keys.take(existing_keys.len() as int) =~= keys);
        let mut extras: Vec<(String, String)> = Vec::new();
        let mut j: usize = 0;
        while j < self.extras.len()
            invariant
                j <= self.extras.len(),
                entries_view(extras@) == entries_view(self.extras@).take(j as int),
            decreases self.extras.len() - j,
        {
            let e = clone_entry(&self.extras[j]);
            let ghost prev = extras@;
            let ghost ev = entry_view(e);
            extras.push(e);
            assert(entries_view(extras@) =~= entries_view(prev).push(ev));
            assert(entries_view(self.extras@)[j as int] == entry_view(self.extras@[j as int]));
            assert(entries_view(extras@) =~= entries_view(self.extras@).take(j + 1));
            j = j + 1;
        }
        assert(entries_view(self.extras@).take(self.extras.len() as int) =~= entries_view(
            self.extras@,
        ));
        Ok(
            SavePlan {
                remove,
                discovery_server: trimmed(self.discovery_server.as_str()),
                port_start: start,
                port_end: end,
                extras,
            },
        )
    }

    /// Record that the plan was written: clear the error and report "Saved".
    pub fn mark_saved(&mut self)
        ensures
            final(self).error is None,
            opt_view(final(self).status) == Some("Saved"@),
            final(self).path == old(self).path,
            final(self).discovery_server == old(self).discovery_server,
            final(self).port_start == old(self).port_start,
            final(self).port_end == old(self).port_end,
            final(self).extras == old(self).extras,
            final(self).new_key == old(self).new_key,
            final(self).new_value == old(self).new_value,
            final(self).unreadable == old(self).unreadable,
    {
        self.error = None;
        self.status = Some(owned("Saved"));
    }
}

} // verus!

verus! {

/// The line under the Config Manager form.
#[derive(Debug, Clone)]
pub enum StatusLine {
    /// The last error, shown in red.
    Failure(String),
    /// The last success message, shown in green.
    Success(String),
    /// Nothing to show.
    Blank,
}

impl SettingsEditor {
    /// Record a failed save or add: the error is shown and the last success
    /// message is dropped.
    pub fn record_failure(&mut self, e: String)
        ensures
            final(self).error == Some(e),
            final(self).status is None,
            final(self).path == old(self).path,
            final(self).discovery_server == old(self).discovery_server,
            final(self).port_start == old(self).port_start,
            final(self).port_end == old(self).port_end,
            final(self).extras == old(self).extras,
            final(self).new_key == old(self).new_key,
            final(self).new_value == old(self).new_value,
            final(self).unreadable == old(self).unreadable,
    {
        self.status = None;
        self.error = Some(e);
    }

    /// What the status line shows: the error when there is one, else the
    /// success message, else nothing.
    pub fn status_line(&self) -> (r: StatusLine)
        ensures
            match self.error {
                Some(e) => r matches StatusLine::Failure(m) && m@ == e@,
                None => match self.status {
                    Some(st) => r matches StatusLine::Success(m) && m@ == st@,
                    None => r is Blank,
                },
            },
    {
        match &self.error {
            Some(e) => StatusLine::Failure(e.clone()),
            None => match &self.status {
                Some(st) => StatusLine::Success(st.clone()),
                None => StatusLine::Blank,
            },
        }
    }
}

} // verus!
