//! The records of a lookup and their mathematical values.

use vstd::prelude::*;

verus! {

/// An Autonomous System.
#[derive(Debug, PartialEq, Eq)]
pub struct AsAsn {
    /// The AS number.
    pub asn: u32,
    /// The short identifier.
    pub name: String,
    /// The long name.
    pub description: String,
    /// The two-letter country code.
    pub country_code: String,
}

/// One announced prefix that covers the queried address.
///
/// The last three fields repeat what the provider also gives under `asn`;
/// they are carried along and not used for output.
#[derive(Debug, PartialEq, Eq)]
pub struct AsPrefix {
    pub prefix: String,
    pub ip: String,
    pub cidr: u32,
    pub asn: AsAsn,
    pub name: String,
    pub description: String,
    pub country_code: String,
}

/// The prefixes of a reply, in the provider's order. The list may be empty.
#[derive(Debug, PartialEq, Eq)]
pub struct AsData {
    pub prefixes: Vec<AsPrefix>,
}

/// The provider's reply as a whole.
#[derive(Debug, PartialEq, Eq)]
pub struct AsResponse {
    pub status: String,
    pub status_message: String,
    pub data: AsData,
}

/// The outcome of a lookup.
#[derive(Debug, PartialEq, Eq)]
pub enum LookupResult {
    Success(AsData),
    Failure(String),
}

pub struct AsAsnView {
    pub asn: u32,
    pub name: Seq<char>,
    pub description: Seq<char>,
    pub country_code: Seq<char>,
}

pub struct AsPrefixView {
    pub prefix: Seq<char>,
    pub ip: Seq<char>,
    pub cidr: u32,
    pub asn: AsAsnView,
    pub name: Seq<char>,
    pub description: Seq<char>,
    pub country_code: Seq<char>,
}

pub struct AsResponseView {
    pub status: Seq<char>,
    pub status_message: Seq<char>,
    pub prefixes: Seq<AsPrefixView>,
}

pub enum LookupResultView {
    Success(Seq<AsPrefixView>),
    Failure(Seq<char>),
}

impl View for AsAsn {
    type V = AsAsnView;

    open spec fn view(&self) -> AsAsnView {
        AsAsnView {
            asn: self.asn,
            name: self.name@,
            description: self.description@,
            country_code: self.country_code@,
        }
    }
}

impl View for AsPrefix {
    type V = AsPrefixView;

    open spec fn view(&self) -> AsPrefixView {
        AsPrefixView {
            prefix: self.prefix@,
            ip: self.ip@,
            cidr: self.cidr,
            asn: self.asn@,
            name: self.name@,
            description: self.description@,
            country_code: self.country_code@,
        }
    }
}

impl View for AsData {
    type V = Seq<AsPrefixView>;

    open spec fn view(&self) -> Seq<AsPrefixView> {
        Seq::new(self.prefixes@.len(), |i: int| self.prefixes@[i]@)
    }
}

impl View for AsResponse {
    type V = AsResponseView;

    open spec fn view(&self) -> AsResponseView {
        AsResponseView {
            status: self.status@,
            status_message: self.status_message@,
            prefixes: self.data@,
        }
    }
}

impl View for LookupResult {
    type V = LookupResultView;

    open spec fn view(&self) -> LookupResultView {
        match self {
            LookupResult::Success(data) => LookupResultView::Success(data@),
            LookupResult::Failure(reason) => LookupResultView::Failure(reason@),
        }
    }
}

} // verus!
