//! The operations on a YubiKey and its metadata that key management is made of.

use crate::error::Error;
use crate::key::{KeyModel, MgmKey};
use vstd::prelude::*;

verus! {

/// Items of the admin data.
#[derive(Copy, Clone, Debug, Eq, PartialEq, Structural)]
pub enum AdminTag {
    /// First byte of flags
    Flags1,

    /// Salt of a derived management key
    Salt,
}

/// Items of the protected data.
#[derive(Copy, Clone, Debug, Eq, PartialEq, Structural)]
pub enum ProtectedTag {
    /// Management key
    Mgm,
}

/// An operation on the device or on its metadata.
///
/// There is one draft of the admin data and one of the protected data, on which the operations
/// on items work. An item that is set to no bytes is removed.
pub enum Request {
    /// Begin a transaction with the device
    BeginTransaction,

    /// Make `key` the management key of the device
    SetMgmKey { key: MgmKey, require_touch: bool },

    /// Read the admin data from the device as the draft
    ReadAdminData,

    /// Take blank admin data as the draft
    NewAdminData,

    /// Look up an item of the draft admin data
    GetAdminItem(AdminTag),

    /// Set an item of the draft admin data
    SetAdminItem(AdminTag, Vec<u8>),

    /// Write the draft admin data to the device
    WriteAdminData,

    /// Read the protected data from the device as the draft
    ReadProtectedData,

    /// Take blank protected data as the draft
    NewProtectedData,

    /// Look up an item of the draft protected data
    GetProtectedItem(ProtectedTag),

    /// Set an item of the draft protected data
    SetProtectedItem(ProtectedTag, Vec<u8>),

    /// Write the draft protected data to the device
    WriteProtectedData,
}

/// What a `Request` is.
pub enum RequestModel {
    BeginTransaction,
    SetMgmKey { key: KeyModel, require_touch: bool },
    ReadAdminData,
    NewAdminData,
    GetAdminItem(AdminTag),
    SetAdminItem(AdminTag, Seq<u8>),
    WriteAdminData,
    ReadProtectedData,
    NewProtectedData,
    GetProtectedItem(ProtectedTag),
    SetProtectedItem(ProtectedTag, Seq<u8>),
    WriteProtectedData,
}

impl View for Request {
    type V = RequestModel;

    open spec fn view(&self) -> RequestModel {
        match *self {
            Request::BeginTransaction => RequestModel::BeginTransaction,
            Request::SetMgmKey { key, require_touch } => RequestModel::SetMgmKey {
                key: key@,
                require_touch,
            },
            Request::ReadAdminData => RequestModel::ReadAdminData,
            Request::NewAdminData => RequestModel::NewAdminData,
            Request::GetAdminItem(tag) => RequestModel::GetAdminItem(tag),
            Request::SetAdminItem(tag, value) => RequestModel::SetAdminItem(tag, value@),
            Request::WriteAdminData => RequestModel::WriteAdminData,
            Request::ReadProtectedData => RequestModel::ReadProtectedData,
            Request::NewProtectedData => RequestModel::NewProtectedData,
            Request::GetProtectedItem(tag) => RequestModel::GetProtectedItem(tag),
            Request::SetProtectedItem(tag, value) => RequestModel::SetProtectedItem(tag, value@),
            Request::WriteProtectedData => RequestModel::WriteProtectedData,
        }
    }
}

/// How an operation went: the bytes that it gave, none if it is not one that looks an item up,
/// or why it failed.
pub open spec fn reply_model(reply: Result<Vec<u8>, Error>) -> Result<Seq<u8>, Error> {
    match reply {
        Ok(bytes) => Ok(bytes@),
        Err(e) => Err(e),
    }
}

/// The model of an operation that carries something holds just that.
pub proof fn law_request_is_its_model(
    key: MgmKey,
    require_touch: bool,
    admin: AdminTag,
    protected: ProtectedTag,
    value: Vec<u8>,
)
    ensures
        (Request::SetMgmKey { key, require_touch })@ == (RequestModel::SetMgmKey {
            key: key@,
            require_touch,
        }),
        Request::GetAdminItem(admin)@ == RequestModel::GetAdminItem(admin),
        Request::SetAdminItem(admin, value)@ == RequestModel::SetAdminItem(admin, value@),
        Request::GetProtectedItem(protected)@ == RequestModel::GetProtectedItem(protected),
        Request::SetProtectedItem(protected, value)@ == RequestModel::SetProtectedItem(
            protected,
            value@,
        ),
{
}

/// The model of an operation that carries nothing is of the same kind, and so is that of no other
/// operation.
pub proof fn law_request_kind_is_kept(request: Request)
    ensures
        request@ is BeginTransaction <==> request is BeginTransaction,
        request@ is SetMgmKey <==> request is SetMgmKey,
        request@ is ReadAdminData <==> request is ReadAdminData,
        request@ is NewAdminData <==> request is NewAdminData,
        request@ is GetAdminItem <==> request is GetAdminItem,
        request@ is SetAdminItem <==> request is SetAdminItem,
        request@ is WriteAdminData <==> request is WriteAdminData,
        request@ is ReadProtectedData <==> request is ReadProtectedData,
        request@ is NewProtectedData <==> request is NewProtectedData,
        request@ is GetProtectedItem <==> request is GetProtectedItem,
        request@ is SetProtectedItem <==> request is SetProtectedItem,
        request@ is WriteProtectedData <==> request is WriteProtectedData,
{
}

/// The model of a reply holds its bytes or its error.
pub proof fn law_reply_is_its_model(reply: Result<Vec<u8>, Error>)
    ensures
        reply matches Ok(bytes) ==> reply_model(reply) == Ok::<Seq<u8>, Error>(bytes@),
        reply matches Err(e) ==> reply_model(reply) == Err::<Seq<u8>, Error>(e),
{
}

} // verus!
