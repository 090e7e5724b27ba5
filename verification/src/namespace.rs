//! Namespaces, and how the namespace of a request is read from its routing
//! metadata.

use vstd::prelude::*;
use vstd::utf8::valid_utf8;
use crate::status::RoutingError;

verus! {

/// Whether `bytes` can name a namespace: a non-empty piece of UTF-8 text.
pub open spec fn well_formed_namespace(bytes: Seq<u8>) -> bool {
    bytes.len() > 0 && valid_utf8(bytes)
}

/// The routing entry of a request's metadata, as the transport read it.
#[derive(Debug, PartialEq, Eq)]
pub enum NamespaceHeader {
    /// The request carries no routing entry.
    Absent,
    /// The entry is there, but its encoding could not be undone.
    Undecodable,
    /// The decoded bytes of the entry.
    Value(Vec<u8>),
}

/// The name of a namespace: the identifier of one tenant's database.
///
/// A name is never empty and always UTF-8 text.
#[derive(Debug, PartialEq, Eq)]
pub struct NamespaceName {
    bytes: Vec<u8>,
}

impl View for NamespaceName {
    type V = Seq<u8>;

    closed spec fn view(&self) -> Seq<u8> {
        self.bytes@
    }
}

/// `std::str::from_utf8`, asked only whether it accepts: the answer is yes
/// exactly for the byte strings that are well-formed UTF-8.
#[verifier::external_body]
fn is_utf8(bytes: &[u8]) -> (ok: bool)
    ensures
        ok == valid_utf8(bytes@),
{
    std::str::from_utf8(bytes).is_ok()
}

impl NamespaceName {
    #[verifier::type_invariant]
    spec fn is_well_formed(&self) -> bool {
        well_formed_namespace(self.bytes@)
    }

    /// The name that `bytes` spell, if they spell one.
    pub closed spec fn parse(bytes: Vec<u8>) -> Option<NamespaceName> {
        if well_formed_namespace(bytes@) {
            Some(NamespaceName { bytes })
        } else {
            None
        }
    }

    /// `parse` accepts exactly the well-formed byte strings, and the name it
    /// gives is spelled by the bytes it was given.
    pub proof fn parse_is_exact(bytes: Vec<u8>)
        ensures
            Self::parse(bytes) is Some <==> well_formed_namespace(bytes@),
            Self::parse(bytes) matches Some(name) ==> name@ == bytes@,
    {
    }

    /// Every name is well formed.
    pub fn as_bytes(&self) -> (bytes: &Vec<u8>)
        ensures
            bytes@ == self@,
            well_formed_namespace(self@),
    {
        proof {
            use_type_invariant(self);
        }
        &self.bytes
    }

    /// Makes a name of `bytes`, or says that they spell none.
    pub fn from_bytes(bytes: Vec<u8>) -> (r: Result<NamespaceName, RoutingError>)
        ensures
            r == match Self::parse(bytes) {
                Some(name) => Ok::<NamespaceName, RoutingError>(name),
                None => Err(RoutingError::InvalidNamespace),
            },
    {
        if bytes.len() > 0 && is_utf8(bytes.as_slice()) {
            Ok(NamespaceName { bytes })
        } else {
            Err(RoutingError::InvalidNamespace)
        }
    }
}

/// What the routing metadata say about the namespace of a request.
///
/// With namespaces disabled no request has one, whatever its metadata hold.
/// Otherwise the request must name one.
pub open spec fn extraction(disable_namespaces: bool, header: NamespaceHeader) -> Result<
    Option<NamespaceName>,
    RoutingError,
> {
    if disable_namespaces {
        Ok(None)
    } else {
        match header {
            NamespaceHeader::Absent => Err(RoutingError::MissingNamespace),
            NamespaceHeader::Undecodable => Err(RoutingError::UndecodableNamespace),
            NamespaceHeader::Value(bytes) => match NamespaceName::parse(bytes) {
                Some(name) => Ok(Some(name)),
                None => Err(RoutingError::InvalidNamespace),
            },
        }
    }
}

/// Reads the namespace of a request from its routing metadata.
pub fn extract_namespace(disable_namespaces: bool, header: NamespaceHeader) -> (r: Result<
    Option<NamespaceName>,
    RoutingError,
>)
    ensures
        r == extraction(disable_namespaces, header),
{
    if disable_namespaces {
        return Ok(None);
    }
    match header {
        NamespaceHeader::Absent => Err(RoutingError::MissingNamespace),
        NamespaceHeader::Undecodable => Err(RoutingError::UndecodableNamespace),
        NamespaceHeader::Value(bytes) => match NamespaceName::from_bytes(bytes) {
            Ok(name) => Ok(Some(name)),
            Err(e) => Err(e),
        },
    }
}

} // verus!
