//! Payloads: an action of a closed set of kinds with its fields, written as the
//! one byte string that the transaction carries.

use crate::error::GatewayError;
use crate::split::{join_spec, lemma_join_of_split, split, split_spec};
use crate::wire::{
    field, fields, lemma_fields_push, put_field, put_text_field, put_text_fields, text_field,
    text_fields,
};
use vstd::prelude::*;
use vstd::string::*;

verus! {

/// The tag of the number of the action in a payload.
pub const TAG_ACTION: u8 = 0x08;

/// The tag of the organization in the fields of an action.
pub const TAG_ORG_ID: u8 = 0x0A;

/// The tag of the public key in the fields of an action.
pub const TAG_PUBLIC_KEY: u8 = 0x12;

/// The tag of the activity flag in the fields of an action.
pub const TAG_ACTIVE: u8 = 0x18;

/// The tag of a role in the fields of an action.
pub const TAG_ROLE: u8 = 0x22;

/// The tag of a metadata entry in the fields of an action.
pub const TAG_METADATA: u8 = 0x2A;

/// The tag of the key in a metadata entry.
pub const TAG_KEY: u8 = 0x0A;

/// The tag of the value in a metadata entry.
pub const TAG_VALUE: u8 = 0x12;

/// What sets the key of a metadata entry apart from its value.
pub const KEY_VALUE_SEPARATOR: char = '=';

/// What sets the items of a list apart.
pub const LIST_SEPARATOR: char = ',';

/// One entry of metadata.
#[derive(Debug, PartialEq, Eq)]
pub struct KeyValueEntry {
    pub key: String,
    pub value: String,
}

/// The mathematical content of a `KeyValueEntry`.
pub ghost struct KeyValueEntryView {
    pub key: Seq<char>,
    pub value: Seq<char>,
}

impl View for KeyValueEntry {
    type V = KeyValueEntryView;

    open spec fn view(&self) -> KeyValueEntryView {
        KeyValueEntryView { key: self.key@, value: self.value@ }
    }
}

impl DeepView for KeyValueEntry {
    type V = KeyValueEntryView;

    open spec fn deep_view(&self) -> KeyValueEntryView {
        self@
    }
}

/// The kinds of action.
#[derive(Clone, Copy, Debug, PartialEq, Eq, Structural)]
pub enum ActionKind {
    CreateAgent,
    UpdateAgent,
    CreateProduct,
    UpdateProduct,
}

/// What an action says of its subject.
#[derive(Debug, PartialEq, Eq)]
pub struct ActionFields {
    /// The organization that the subject belongs to.
    pub org_id: String,
    /// The public key of the subject.
    pub public_key: String,
    /// Whether the subject is active.
    pub active: bool,
    /// The roles of the subject.
    pub roles: Vec<String>,
    /// Free entries of metadata.
    pub metadata: Vec<KeyValueEntry>,
}

/// The mathematical content of `ActionFields`.
pub ghost struct ActionFieldsView {
    pub org_id: Seq<char>,
    pub public_key: Seq<char>,
    pub active: bool,
    pub roles: Seq<Seq<char>>,
    pub metadata: Seq<KeyValueEntryView>,
}

impl View for ActionFields {
    type V = ActionFieldsView;

    open spec fn view(&self) -> ActionFieldsView {
        ActionFieldsView {
            org_id: self.org_id@,
            public_key: self.public_key@,
            active: self.active,
            roles: self.roles.deep_view(),
            metadata: self.metadata.deep_view(),
        }
    }
}

/// An action: its kind decides how its payload is written.
#[derive(Debug, PartialEq, Eq)]
pub enum Action {
    CreateAgent(ActionFields),
    UpdateAgent(ActionFields),
    CreateProduct(ActionFields),
    UpdateProduct(ActionFields),
}

/// The mathematical content of an `Action`.
pub ghost struct ActionView {
    pub kind: ActionKind,
    pub fields: ActionFieldsView,
}

impl View for Action {
    type V = ActionView;

    open spec fn view(&self) -> ActionView {
        match self {
            Action::CreateAgent(fields) => ActionView {
                kind: ActionKind::CreateAgent,
                fields: fields@,
            },
            Action::UpdateAgent(fields) => ActionView {
                kind: ActionKind::UpdateAgent,
                fields: fields@,
            },
            Action::CreateProduct(fields) => ActionView {
                kind: ActionKind::CreateProduct,
                fields: fields@,
            },
            Action::UpdateProduct(fields) => ActionView {
                kind: ActionKind::UpdateProduct,
                fields: fields@,
            },
        }
    }
}

impl ActionKind {
    /// The number that names the kind in a payload.
    pub open spec fn number_spec(self) -> u8 {
        match self {
            ActionKind::CreateAgent => 1,
            ActionKind::UpdateAgent => 2,
            ActionKind::CreateProduct => 3,
            ActionKind::UpdateProduct => 4,
        }
    }

    /// The tag that leads the fields of an action of the kind in a payload.
    pub open spec fn tag_spec(self) -> u8 {
        match self {
            ActionKind::CreateAgent => 0x12,
            ActionKind::UpdateAgent => 0x1A,
            ActionKind::CreateProduct => 0x22,
            ActionKind::UpdateProduct => 0x2A,
        }
    }

    /// Computes the number that names the kind in a payload.
    pub fn number(&self) -> (n: u8)
        ensures
            n == self.number_spec(),
    {
        match self {
            ActionKind::CreateAgent => 1,
            ActionKind::UpdateAgent => 2,
            ActionKind::CreateProduct => 3,
            ActionKind::UpdateProduct => 4,
        }
    }

    /// Computes the tag that leads the fields of an action of the kind.
    pub fn tag(&self) -> (t: u8)
        ensures
            t == self.tag_spec(),
    {
        match self {
            ActionKind::CreateAgent => 0x12,
            ActionKind::UpdateAgent => 0x1A,
            ActionKind::CreateProduct => 0x22,
            ActionKind::UpdateProduct => 0x2A,
        }
    }
}

/// The encoding of one entry of metadata.
pub open spec fn encode_entry(entry: KeyValueEntryView) -> Seq<u8> {
    text_field(TAG_KEY, entry.key) + text_field(TAG_VALUE, entry.value)
}

/// The encoding of each entry of `entries`.
pub open spec fn encode_entries(entries: Seq<KeyValueEntryView>) -> Seq<Seq<u8>> {
    Seq::new(entries.len(), |i: int| encode_entry(entries[i]))
}

/// The encoding of the activity flag.
pub open spec fn encode_active(active: bool) -> Seq<u8> {
    seq![TAG_ACTIVE, if active { 1u8 } else { 0u8 }]
}

/// The encoding of the fields of an action.
pub open spec fn encode_action_fields(f: ActionFieldsView) -> Seq<u8> {
    text_field(TAG_ORG_ID, f.org_id) + (text_field(TAG_PUBLIC_KEY, f.public_key) + (encode_active(
        f.active,
    ) + (text_fields(TAG_ROLE, f.roles) + fields(TAG_METADATA, encode_entries(f.metadata)))))
}

/// The payload of an action: the number of its kind, then its fields under the
/// tag of its kind. The same action always has the same payload.
pub open spec fn payload_spec(action: ActionView) -> Seq<u8> {
    seq![TAG_ACTION, action.kind.number_spec()] + field(
        action.kind.tag_spec(),
        encode_action_fields(action.fields),
    )
}

/// The entry that `text` stands for: a key, the separator, a value. `None`
/// unless the separator stands in `text` exactly once.
pub open spec fn parse_entry(text: Seq<char>) -> Option<KeyValueEntryView> {
    let parts = split_spec(text, KEY_VALUE_SEPARATOR);
    if parts.len() == 2 {
        Some(KeyValueEntryView { key: parts[0], value: parts[1] })
    } else {
        None
    }
}

/// The entries that `texts` stand for, if each of them stands for one.
pub open spec fn parse_entries(texts: Seq<Seq<char>>) -> Option<Seq<KeyValueEntryView>> {
    if forall|i: int| 0 <= i < texts.len() ==> parse_entry(#[trigger] texts[i]) is Some {
        Some(Seq::new(texts.len(), |i: int| parse_entry(texts[i])->0))
    } else {
        None
    }
}

/// The items of a list written as one text; the empty text is the empty list.
pub open spec fn list_spec(text: Seq<char>) -> Seq<Seq<char>> {
    if text.len() == 0 {
        Seq::empty()
    } else {
        split_spec(text, LIST_SEPARATOR)
    }
}

/// An entry that reads from a text is that text: its key, the separator, its
/// value.
pub proof fn lemma_parse_entry(text: Seq<char>)
    ensures
        parse_entry(text) matches Some(entry) ==> text == entry.key + seq![KEY_VALUE_SEPARATOR]
            + entry.value,
{
    lemma_join_of_split(text, KEY_VALUE_SEPARATOR);
    let parts = split_spec(text, KEY_VALUE_SEPARATOR);
    if parts.len() == 2 {
        let tail = parts.drop_first();
        assert(join_spec(parts, KEY_VALUE_SEPARATOR) == parts[0] + seq![KEY_VALUE_SEPARATOR]
            + join_spec(tail, KEY_VALUE_SEPARATOR));
    }
}

/// Reads the items of a list written as one text.
pub fn split_list(text: &str) -> (items: Vec<String>)
    ensures
        items.deep_view() == list_spec(text@),
{
    if text.unicode_len() == 0 {
        let items: Vec<String> = Vec::new();
        items
    } else {
        split(text, LIST_SEPARATOR)
    }
}

impl KeyValueEntry {
    /// Reads an entry written as a key, the separator and a value; text in any
    /// other form is refused with `PayloadError`.
    pub fn parse(text: &str) -> (res: Result<KeyValueEntry, GatewayError>)
        ensures
            match parse_entry(text@) {
                Some(entry) => res matches Ok(found) && found@ == entry,
                None => res matches Err(GatewayError::PayloadError),
            },
    {
        let mut parts = split(text, KEY_VALUE_SEPARATOR);
        if parts.len() != 2 {
            return Err(GatewayError::PayloadError);
        }
        let value = parts.pop().unwrap();
        let key = parts.pop().unwrap();
        Ok(KeyValueEntry { key, value })
    }

    /// Reads each of `texts` as an entry; `PayloadError` if one of them is none.
    pub fn parse_all(texts: &Vec<String>) -> (res: Result<Vec<KeyValueEntry>, GatewayError>)
        ensures
            match parse_entries(texts.deep_view()) {
                Some(entries) => res matches Ok(found) && found.deep_view() == entries,
                None => res matches Err(GatewayError::PayloadError),
            },
    {
        let ghost all = texts.deep_view();
        let mut found: Vec<KeyValueEntry> = Vec::new();
        let mut i: usize = 0;
        while i < texts.len()
            invariant
                i <= texts.len(),
                all == texts.deep_view(),
                found.len() == i,
                forall|k: int| 0 <= k < i ==> parse_entry(#[trigger] all[k]) == Some(found[k]@),
            decreases texts.len() - i,
        {
            match KeyValueEntry::parse(texts[i].as_str()) {
                Ok(entry) => {
                    found.push(entry);
                },
                Err(_) => {
                    assert(parse_entry(all[i as int]) is None);
                    return Err(GatewayError::PayloadError);
                },
            }
            i += 1;
        }
        Ok(found)
    }

    /// Writes the encoding of the entry.
    pub fn to_bytes(&self) -> (bytes: Vec<u8>)
        ensures
            bytes@ == encode_entry(self@),
    {
        let mut out: Vec<u8> = Vec::new();
        put_text_field(&mut out, TAG_KEY, self.key.as_str());
        put_text_field(&mut out, TAG_VALUE, self.value.as_str());
        out
    }
}

impl ActionFields {
    /// Writes the encoding of the fields.
    pub fn to_bytes(&self) -> (bytes: Vec<u8>)
        ensures
            bytes@ == encode_action_fields(self@),
    {
        let mut out: Vec<u8> = Vec::new();
        put_text_field(&mut out, TAG_ORG_ID, self.org_id.as_str());
        put_text_field(&mut out, TAG_PUBLIC_KEY, self.public_key.as_str());
        out.push(TAG_ACTIVE);
        out.push(if self.active { 1 } else { 0 });
        put_text_fields(&mut out, TAG_ROLE, &self.roles);
        let ghost head = out@;
        let ghost all = self.metadata.deep_view();
        let mut i: usize = 0;
        while i < self.metadata.len()
            invariant
                i <= self.metadata.len(),
                all == self.metadata.deep_view(),
                out@ == head + fields(TAG_METADATA, encode_entries(all.take(i as int))),
            decreases self.metadata.len() - i,
        {
            let bytes = self.metadata[i].to_bytes();
            put_field(&mut out, TAG_METADATA, bytes.as_slice());
            proof {
                let done = encode_entries(all.take(i as int));
                assert(encode_entries(all.take(i + 1)) =~= done.push(bytes@));
                lemma_fields_push(TAG_METADATA, done, bytes@);
            }
            i += 1;
        }
        assert(all.take(i as int) =~= all);
        out
    }
}

impl Action {
    /// Makes the action of `kind` with `fields`.
    pub fn new(kind: ActionKind, fields: ActionFields) -> (action: Action)
        ensures
            action@ == (ActionView { kind, fields: fields@ }),
    {
        match kind {
            ActionKind::CreateAgent => Action::CreateAgent(fields),
            ActionKind::UpdateAgent => Action::UpdateAgent(fields),
            ActionKind::CreateProduct => Action::CreateProduct(fields),
            ActionKind::UpdateProduct => Action::UpdateProduct(fields),
        }
    }

    /// The kind of the action.
    pub fn kind(&self) -> (kind: ActionKind)
        ensures
            kind == self@.kind,
    {
        match self {
            Action::CreateAgent(_) => ActionKind::CreateAgent,
            Action::UpdateAgent(_) => ActionKind::UpdateAgent,
            Action::CreateProduct(_) => ActionKind::CreateProduct,
            Action::UpdateProduct(_) => ActionKind::UpdateProduct,
        }
    }

    /// Writes the payload of the action.
    pub fn to_bytes(&self) -> (bytes: Vec<u8>)
        ensures
            bytes@ == payload_spec(self@),
    {
        let kind = self.kind();
        let body = match self {
            Action::CreateAgent(fields) => fields.to_bytes(),
            Action::UpdateAgent(fields) => fields.to_bytes(),
            Action::CreateProduct(fields) => fields.to_bytes(),
            Action::UpdateProduct(fields) => fields.to_bytes(),
        };
        let mut out: Vec<u8> = Vec::new();
        out.push(TAG_ACTION);
        out.push(kind.number());
        put_field(&mut out, kind.tag(), body.as_slice());
        out
    }
}

} // verus!
