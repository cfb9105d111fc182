//! The shape that a provider's reply must have, and the decoder that holds
//! a JSON document to it.
//!
//! Every member listed here is required. Members that are not listed are
//! passed over. Decoding stops at the first member, in the order given by
//! the functions below, that is absent or of the wrong type.

use crate::json::{find, member, members_view, items_view, viewed, Json, JsonView, Members};
use crate::model::{AsAsn, AsAsnView, AsData, AsPrefix, AsPrefixView, AsResponse, AsResponseView};
use vstd::prelude::*;

verus! {

/// Why a document does not have the required shape.
#[derive(Debug, PartialEq, Eq)]
pub enum SchemaError {
    /// The document itself is not an object.
    NotAnObject,
    /// The named member is absent from its object.
    Missing(String),
    /// The named member is there, but its value has the wrong type; for
    /// `prefixes`, also: one of its items is not an object.
    Mismatch(String),
}

pub enum SchemaErrorView {
    NotAnObject,
    Missing(Seq<char>),
    Mismatch(Seq<char>),
}

impl View for SchemaError {
    type V = SchemaErrorView;

    open spec fn view(&self) -> SchemaErrorView {
        match self {
            SchemaError::NotAnObject => SchemaErrorView::NotAnObject,
            SchemaError::Missing(name) => SchemaErrorView::Missing(name@),
            SchemaError::Mismatch(name) => SchemaErrorView::Mismatch(name@),
        }
    }
}

/// The text that describes an error.
pub open spec fn message_text(error: SchemaErrorView) -> Seq<char> {
    match error {
        SchemaErrorView::NotAnObject => "expected an object"@,
        SchemaErrorView::Missing(name) => "missing field `"@ + name + "`"@,
        SchemaErrorView::Mismatch(name) => "invalid type for field `"@ + name + "`"@,
    }
}

impl SchemaError {
    /// Describes the error in words.
    pub fn message(&self) -> (text: String)
        ensures
            text@ == message_text(self@),
    {
        match self {
            SchemaError::NotAnObject => String::from_str("expected an object"),
            SchemaError::Missing(name) => {
                String::from_str("missing field `").concat(name.as_str()).concat("`")
            },
            SchemaError::Mismatch(name) => {
                String::from_str("invalid type for field `").concat(name.as_str()).concat("`")
            },
        }
    }
}

/// The text of member `key`.
pub open spec fn text_member(members: Members, key: Seq<char>) -> Result<
    Seq<char>,
    SchemaErrorView,
> {
    match member(members, key) {
        None => Err(SchemaErrorView::Missing(key)),
        Some(JsonView::Text(text)) => Ok(text),
        Some(_) => Err(SchemaErrorView::Mismatch(key)),
    }
}

/// The number of member `key`: a non-negative integer of at most 32 bits.
pub open spec fn number_member(members: Members, key: Seq<char>) -> Result<u32, SchemaErrorView> {
    match member(members, key) {
        None => Err(SchemaErrorView::Missing(key)),
        Some(JsonView::Unsigned(n)) => if n <= u32::MAX {
            Ok(n as u32)
        } else {
            Err(SchemaErrorView::Mismatch(key))
        },
        Some(_) => Err(SchemaErrorView::Mismatch(key)),
    }
}

/// The members of member `key`, which must be an object.
pub open spec fn object_member(members: Members, key: Seq<char>) -> Result<
    Members,
    SchemaErrorView,
> {
    match member(members, key) {
        None => Err(SchemaErrorView::Missing(key)),
        Some(JsonView::Object(inner)) => Ok(inner),
        Some(_) => Err(SchemaErrorView::Mismatch(key)),
    }
}

/// The items of member `key`, which must be an array.
pub open spec fn array_member(members: Members, key: Seq<char>) -> Result<
    Seq<JsonView>,
    SchemaErrorView,
> {
    match member(members, key) {
        None => Err(SchemaErrorView::Missing(key)),
        Some(JsonView::Array(items)) => Ok(items),
        Some(_) => Err(SchemaErrorView::Mismatch(key)),
    }
}

/// The Autonomous System that an object describes: `asn`, `name`,
/// `description` and `country_code`, required in this order.
pub open spec fn asn_of(members: Members) -> Result<AsAsnView, SchemaErrorView> {
    let asn = number_member(members, "asn"@);
    let name = text_member(members, "name"@);
    let description = text_member(members, "description"@);
    let country_code = text_member(members, "country_code"@);
    if asn is Err {
        Err(asn->Err_0)
    } else if name is Err {
        Err(name->Err_0)
    } else if description is Err {
        Err(description->Err_0)
    } else if country_code is Err {
        Err(country_code->Err_0)
    } else {
        Ok(
            AsAsnView {
                asn: asn->Ok_0,
                name: name->Ok_0,
                description: description->Ok_0,
                country_code: country_code->Ok_0,
            },
        )
    }
}

/// The object under `asn`, decoded.
pub open spec fn asn_member(members: Members) -> Result<AsAsnView, SchemaErrorView> {
    match object_member(members, "asn"@) {
        Ok(inner) => asn_of(inner),
        Err(error) => Err(error),
    }
}

/// The prefix that an object describes: `prefix`, `ip`, `cidr`, `asn`,
/// `name`, `description` and `country_code`, required in this order.
pub open spec fn prefix_of(members: Members) -> Result<AsPrefixView, SchemaErrorView> {
    let prefix = text_member(members, "prefix"@);
    let ip = text_member(members, "ip"@);
    let cidr = number_member(members, "cidr"@);
    let asn = asn_member(members);
    let name = text_member(members, "name"@);
    let description = text_member(members, "description"@);
    let country_code = text_member(members, "country_code"@);
    if prefix is Err {
        Err(prefix->Err_0)
    } else if ip is Err {
        Err(ip->Err_0)
    } else if cidr is Err {
        Err(cidr->Err_0)
    } else if asn is Err {
        Err(asn->Err_0)
    } else if name is Err {
        Err(name->Err_0)
    } else if description is Err {
        Err(description->Err_0)
    } else if country_code is Err {
        Err(country_code->Err_0)
    } else {
        Ok(
            AsPrefixView {
                prefix: prefix->Ok_0,
                ip: ip->Ok_0,
                cidr: cidr->Ok_0,
                asn: asn->Ok_0,
                name: name->Ok_0,
                description: description->Ok_0,
                country_code: country_code->Ok_0,
            },
        )
    }
}

/// The prefix that one item of `prefixes` describes.
pub open spec fn prefix_of_item(item: JsonView) -> Result<AsPrefixView, SchemaErrorView> {
    match item {
        JsonView::Object(members) => prefix_of(members),
        _ => Err(SchemaErrorView::Mismatch("prefixes"@)),
    }
}

/// Item `i` is the first one that does not describe a prefix.
pub open spec fn is_first_failure(items: Seq<JsonView>, i: int) -> bool {
    &&& 0 <= i < items.len()
    &&& prefix_of_item(items[i]) is Err
    &&& forall|j: int| 0 <= j < i ==> prefix_of_item(#[trigger] items[j]) is Ok
}

/// The prefixes that the items describe, in their order; the error of the
/// first item that describes none.
pub open spec fn prefixes_of(items: Seq<JsonView>) -> Result<Seq<AsPrefixView>, SchemaErrorView> {
    if exists|i: int| is_first_failure(items, i) {
        Err(prefix_of_item(items[choose|i: int| is_first_failure(items, i)])->Err_0)
    } else {
        Ok(Seq::new(items.len(), |i: int| prefix_of_item(items[i])->Ok_0))
    }
}

/// The prefixes under `data`, which must be an object with an array
/// `prefixes`.
pub open spec fn data_member(members: Members) -> Result<Seq<AsPrefixView>, SchemaErrorView> {
    match object_member(members, "data"@) {
        Err(error) => Err(error),
        Ok(data) => match array_member(data, "prefixes"@) {
            Err(error) => Err(error),
            Ok(items) => prefixes_of(items),
        },
    }
}

/// The reply that a document describes: an object with `status`,
/// `status_message` and `data`, required in this order.
pub open spec fn response_of(doc: JsonView) -> Result<AsResponseView, SchemaErrorView> {
    match doc {
        JsonView::Object(members) => {
            let status = text_member(members, "status"@);
            let status_message = text_member(members, "status_message"@);
            let prefixes = data_member(members);
            if status is Err {
                Err(status->Err_0)
            } else if status_message is Err {
                Err(status_message->Err_0)
            } else if prefixes is Err {
                Err(prefixes->Err_0)
            } else {
                Ok(
                    AsResponseView {
                        status: status->Ok_0,
                        status_message: status_message->Ok_0,
                        prefixes: prefixes->Ok_0,
                    },
                )
            }
        },
        _ => Err(SchemaErrorView::NotAnObject),
    }
}

/// Member `key` is a text.
pub open spec fn has_text(members: Members, key: Seq<char>) -> bool {
    member(members, key) matches Some(JsonView::Text(_))
}

/// Member `key` is a non-negative integer of at most 32 bits.
pub open spec fn has_number(members: Members, key: Seq<char>) -> bool {
    member(members, key) matches Some(JsonView::Unsigned(n)) && n <= u32::MAX
}

/// The members are those of an Autonomous System.
pub open spec fn asn_conforms(members: Members) -> bool {
    &&& has_number(members, "asn"@)
    &&& has_text(members, "name"@)
    &&& has_text(members, "description"@)
    &&& has_text(members, "country_code"@)
}

/// The item is the object of a prefix.
pub open spec fn prefix_conforms(item: JsonView) -> bool {
    &&& item matches JsonView::Object(members)
    &&& has_text(members, "prefix"@)
    &&& has_text(members, "ip"@)
    &&& has_number(members, "cidr"@)
    &&& member(members, "asn"@) matches Some(JsonView::Object(asn))
    &&& asn_conforms(asn)
    &&& has_text(members, "name"@)
    &&& has_text(members, "description"@)
    &&& has_text(members, "country_code"@)
}

/// The document has the shape of a reply: every required member is there
/// and has its type, down to the members of each prefix.
pub open spec fn conforms(doc: JsonView) -> bool {
    &&& doc matches JsonView::Object(members)
    &&& has_text(members, "status"@)
    &&& has_text(members, "status_message"@)
    &&& member(members, "data"@) matches Some(JsonView::Object(data))
    &&& member(data, "prefixes"@) matches Some(JsonView::Array(items))
    &&& forall|i: int| 0 <= i < items.len() ==> prefix_conforms(#[trigger] items[i])
}

/// No member is named `key`.
pub open spec fn lacks(members: Members, key: Seq<char>) -> bool {
    member(members, key) is None
}

/// The object of an Autonomous System lacks one of its four members.
pub open spec fn asn_lacks_member(members: Members) -> bool {
    ||| lacks(members, "asn"@)
    ||| lacks(members, "name"@)
    ||| lacks(members, "description"@)
    ||| lacks(members, "country_code"@)
}

/// The object of a prefix lacks one of its seven members, or the object
/// under its `asn` lacks one of its own.
pub open spec fn prefix_lacks_member(members: Members) -> bool {
    ||| lacks(members, "prefix"@)
    ||| lacks(members, "ip"@)
    ||| lacks(members, "cidr"@)
    ||| lacks(members, "asn"@)
    ||| lacks(members, "name"@)
    ||| lacks(members, "description"@)
    ||| lacks(members, "country_code"@)
    ||| (member(members, "asn"@) matches Some(JsonView::Object(asn)) && asn_lacks_member(asn))
}

/// One of the items is an object of a prefix that lacks a member.
pub open spec fn some_prefix_lacks_member(items: Seq<JsonView>) -> bool {
    exists|i: int|
        0 <= i < items.len() && (#[trigger] items[i] matches JsonView::Object(prefix)
            && prefix_lacks_member(prefix))
}

/// The object under `data` lacks `prefixes`, or a prefix listed there lacks
/// a member.
pub open spec fn data_lacks_member(members: Members) -> bool {
    ||| lacks(members, "prefixes"@)
    ||| (member(members, "prefixes"@) matches Some(JsonView::Array(items))
        && some_prefix_lacks_member(items))
}

/// Somewhere in the document an object lacks a member that is required of
/// it.
pub open spec fn lacks_required_member(doc: JsonView) -> bool {
    doc matches JsonView::Object(members) && {
        ||| lacks(members, "status"@)
        ||| lacks(members, "status_message"@)
        ||| lacks(members, "data"@)
        ||| (member(members, "data"@) matches Some(JsonView::Object(data)) && data_lacks_member(
            data,
        ))
    }
}

/// Where an item describes no prefix, some item is the first to do so.
pub proof fn lemma_first_failure_exists(items: Seq<JsonView>, i: int)
    requires
        0 <= i < items.len(),
        prefix_of_item(items[i]) is Err,
    ensures
        exists|k: int| is_first_failure(items, k),
    decreases i,
{
    if forall|j: int| 0 <= j < i ==> prefix_of_item(#[trigger] items[j]) is Ok {
        assert(is_first_failure(items, i));
    } else {
        let j = choose|j: int| 0 <= j < i && !(prefix_of_item(#[trigger] items[j]) is Ok);
        lemma_first_failure_exists(items, j);
    }
}

/// The items decode exactly when each of them describes a prefix, and the
/// prefixes then stand where their items stood.
pub proof fn lemma_prefixes_item_by_item(items: Seq<JsonView>)
    ensures
        prefixes_of(items) is Ok <==> forall|i: int|
            0 <= i < items.len() ==> prefix_of_item(#[trigger] items[i]) is Ok,
        prefixes_of(items) matches Ok(prefixes) ==> prefixes.len() == items.len() && forall|i: int|
            0 <= i < items.len() ==> prefix_of_item(#[trigger] items[i]) == Ok::<
                AsPrefixView,
                SchemaErrorView,
            >(prefixes[i]),
{
    if exists|i: int| 0 <= i < items.len() && prefix_of_item(#[trigger] items[i]) is Err {
        let i = choose|i: int| 0 <= i < items.len() && prefix_of_item(#[trigger] items[i]) is Err;
        lemma_first_failure_exists(items, i);
    } else {
        assert forall|k: int| !is_first_failure(items, k) by {
            if 0 <= k < items.len() {
                assert(!(prefix_of_item(items[k]) is Err));
            }
        }
    }
}

/// A document is decoded exactly when it has the shape of a reply.
pub proof fn lemma_decodes_iff_conforms(doc: JsonView)
    ensures
        response_of(doc) is Ok <==> conforms(doc),
{
    if let JsonView::Object(members) = doc {
        if let Some(JsonView::Object(data)) = member(members, "data"@) {
            if let Some(JsonView::Array(items)) = member(data, "prefixes"@) {
                lemma_prefixes_item_by_item(items);
                assert forall|i: int| 0 <= i < items.len() implies (prefix_of_item(
                    #[trigger] items[i],
                ) is Ok <==> prefix_conforms(items[i])) by {}
            }
        }
    }
}

/// A document in which a required member is missing is not decoded: no
/// default stands in for the member.
pub proof fn lemma_missing_member_rejected(doc: JsonView)
    requires
        lacks_required_member(doc),
    ensures
        response_of(doc) is Err,
{
    let members = doc->Object_0;
    if let Some(JsonView::Object(data)) = member(members, "data"@) {
        if let Some(JsonView::Array(items)) = member(data, "prefixes"@) {
            if some_prefix_lacks_member(items) {
                let i = choose|i: int|
                    0 <= i < items.len() && (#[trigger] items[i] matches JsonView::Object(prefix)
                        && prefix_lacks_member(prefix));
                assert(prefix_of_item(items[i]) is Err);
                lemma_first_failure_exists(items, i);
            }
        }
    }
}

/// Reads the text of member `key`.
pub fn decode_text(members: &Vec<(String, Json)>, key: &str) -> (outcome: Result<
    String,
    SchemaError,
>)
    ensures
        viewed(outcome) == text_member(members_view(members@), key@),
{
    match find(members, key) {
        None => Err(SchemaError::Missing(String::from_str(key))),
        Some(value) => match value.text() {
            Some(text) => Ok(text.clone()),
            None => Err(SchemaError::Mismatch(String::from_str(key))),
        },
    }
}

/// Reads the number of member `key`.
pub fn decode_number(members: &Vec<(String, Json)>, key: &str) -> (outcome: Result<
    u32,
    SchemaError,
>)
    ensures
        viewed(outcome) == number_member(members_view(members@), key@),
{
    match find(members, key) {
        None => Err(SchemaError::Missing(String::from_str(key))),
        Some(value) => match value.unsigned() {
            Some(n) => if n <= 0xffff_ffff {
                Ok(n as u32)
            } else {
                Err(SchemaError::Mismatch(String::from_str(key)))
            },
            None => Err(SchemaError::Mismatch(String::from_str(key))),
        },
    }
}

/// Reads member `key` as an object.
pub fn decode_object<'a>(members: &'a Vec<(String, Json)>, key: &str) -> (outcome: Result<
    &'a Vec<(String, Json)>,
    SchemaError,
>)
    ensures
        match outcome {
            Ok(inner) => object_member(members_view(members@), key@) == Ok::<
                Members,
                SchemaErrorView,
            >(members_view(inner@)),
            Err(error) => object_member(members_view(members@), key@) == Err::<
                Members,
                SchemaErrorView,
            >(error@),
        },
{
    match find(members, key) {
        None => Err(SchemaError::Missing(String::from_str(key))),
        Some(value) => match value.members() {
            Some(inner) => Ok(inner),
            None => Err(SchemaError::Mismatch(String::from_str(key))),
        },
    }
}

/// Reads member `key` as an array.
pub fn decode_array<'a>(members: &'a Vec<(String, Json)>, key: &str) -> (outcome: Result<
    &'a Vec<Json>,
    SchemaError,
>)
    ensures
        match outcome {
            Ok(items) => array_member(members_view(members@), key@) == Ok::<
                Seq<JsonView>,
                SchemaErrorView,
            >(items_view(items@)),
            Err(error) => array_member(members_view(members@), key@) == Err::<
                Seq<JsonView>,
                SchemaErrorView,
            >(error@),
        },
{
    match find(members, key) {
        None => Err(SchemaError::Missing(String::from_str(key))),
        Some(value) => match value.items() {
            Some(items) => Ok(items),
            None => Err(SchemaError::Mismatch(String::from_str(key))),
        },
    }
}

/// Decodes the object that describes an Autonomous System.
pub fn decode_asn(members: &Vec<(String, Json)>) -> (outcome: Result<AsAsn, SchemaError>)
    ensures
        viewed(outcome) == asn_of(members_view(members@)),
{
    let asn = decode_number(members, "asn")?;
    let name = decode_text(members, "name")?;
    let description = decode_text(members, "description")?;
    let country_code = decode_text(members, "country_code")?;
    Ok(AsAsn { asn, name, description, country_code })
}

/// Decodes the object that describes a prefix.
pub fn decode_prefix(members: &Vec<(String, Json)>) -> (outcome: Result<AsPrefix, SchemaError>)
    ensures
        viewed(outcome) == prefix_of(members_view(members@)),
{
    let prefix = decode_text(members, "prefix")?;
    let ip = decode_text(members, "ip")?;
    let cidr = decode_number(members, "cidr")?;
    let asn_members = decode_object(members, "asn")?;
    let asn = decode_asn(asn_members)?;
    let name = decode_text(members, "name")?;
    let description = decode_text(members, "description")?;
    let country_code = decode_text(members, "country_code")?;
    Ok(AsPrefix { prefix, ip, cidr, asn, name, description, country_code })
}

/// Decodes one item of `prefixes`.
pub fn decode_item(item: &Json) -> (outcome: Result<AsPrefix, SchemaError>)
    ensures
        viewed(outcome) == prefix_of_item(item@),
{
    match item.members() {
        Some(members) => decode_prefix(members),
        None => Err(SchemaError::Mismatch(String::from_str("prefixes"))),
    }
}

/// At most one item is the first that describes no prefix.
pub proof fn lemma_first_failure_unique(items: Seq<JsonView>, i: int, j: int)
    requires
        is_first_failure(items, i),
        is_first_failure(items, j),
    ensures
        i == j,
{
    if i < j {
        assert(prefix_of_item(items[i]) is Ok);
    } else if j < i {
        assert(prefix_of_item(items[j]) is Ok);
    }
}

/// Decodes the items of `prefixes`, keeping their order.
pub fn decode_prefixes(items: &Vec<Json>) -> (outcome: Result<AsData, SchemaError>)
    ensures
        viewed(outcome) == prefixes_of(items_view(items@)),
{
    let ghost all = items_view(items@);
    let mut prefixes: Vec<AsPrefix> = Vec::new();
    let mut i: usize = 0;
    while i < items.len()
        invariant
            i <= items.len(),
            all == items_view(items@),
            prefixes@.len() == i,
            forall|j: int|
                0 <= j < i ==> prefix_of_item(#[trigger] all[j]) == Ok::<
                    AsPrefixView,
                    SchemaErrorView,
                >(prefixes@[j]@),
        decreases items.len() - i,
    {
        match decode_item(&items[i]) {
            Ok(prefix) => {
                prefixes.push(prefix);
            },
            Err(error) => {
                proof {
                    let at = i as int;
                    assert(all[at] == items@[at]@);
                    assert(is_first_failure(all, at));
                    let chosen = choose|k: int| is_first_failure(all, k);
                    lemma_first_failure_unique(all, at, chosen);
                }
                return Err(error);
            },
        }
        i += 1;
    }
    let data = AsData { prefixes };
    proof {
        assert forall|k: int| !is_first_failure(all, k) by {
            if 0 <= k < all.len() {
                assert(prefix_of_item(all[k]) is Ok);
            }
        }
        assert(data@ =~= prefixes_of(all)->Ok_0);
    }
    Ok(data)
}

/// Decodes the object under `data`.
pub fn decode_data(members: &Vec<(String, Json)>) -> (outcome: Result<AsData, SchemaError>)
    ensures
        viewed(outcome) == data_member(members_view(members@)),
{
    let data = decode_object(members, "data")?;
    let items = decode_array(data, "prefixes")?;
    decode_prefixes(items)
}

/// Decodes a provider's reply from a JSON document.
///
/// Succeeds exactly on the documents that have the required shape, and
/// otherwise reports the first member that is absent or of the wrong type.
pub fn decode_response(doc: &Json) -> (outcome: Result<AsResponse, SchemaError>)
    ensures
        viewed(outcome) == response_of(doc@),
        outcome is Ok <==> conforms(doc@),
{
    proof {
        lemma_decodes_iff_conforms(doc@);
    }
    let members = match doc.members() {
        Some(members) => members,
        None => {
            return Err(SchemaError::NotAnObject);
        },
    };
    let status = decode_text(members, "status")?;
    let status_message = decode_text(members, "status_message")?;
    let data = decode_data(members)?;
    Ok(AsResponse { status, status_message, data })
}

} // verus!
