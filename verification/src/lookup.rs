//! Getting at the management key of a YubiKey that is derived from the PIN or protected by it.
//!
//! A lookup is a conversation: it asks for one operation at a time, is told how the operation
//! went, and in the end gives the key or says why there is none.

use crate::algorithm::{ManagementAlgorithmId, MgmAlgorithmId};
use crate::error::Error;
use crate::key::{KeyModel, MgmKey};
use crate::request::{AdminTag, ProtectedTag, Request, RequestModel};
use vstd::prelude::*;
use vstd::slice::slice_to_vec;

verus! {

/// The next thing to do for a lookup.
pub enum LookupStep {
    /// Perform this operation, and tell the lookup how it went
    Ask(Request),

    /// Ask the device which algorithm the metadata of its management slot name, and tell the
    /// lookup
    AskAlgorithm,

    /// The lookup is over, with this result
    Return(Result<MgmKey, Error>),
}

/// What a `LookupStep` is.
pub enum LookupStepModel {
    Ask(RequestModel),
    AskAlgorithm,
    Return(Result<KeyModel, Error>),
}

impl View for LookupStep {
    type V = LookupStepModel;

    open spec fn view(&self) -> LookupStepModel {
        match *self {
            LookupStep::Ask(request) => LookupStepModel::Ask(request@),
            LookupStep::AskAlgorithm => LookupStepModel::AskAlgorithm,
            LookupStep::Return(r) => LookupStepModel::Return(crate::key::outcome(r)),
        }
    }
}

/// What a `KeyLookup` is: the operation that it waits for, or its result. A lookup of a derived
/// key knows the PIN.
pub enum LookupModel {
    DerivedBegin(Seq<u8>),
    DerivedReadAdmin(Seq<u8>),
    DerivedGetSalt(Seq<u8>),
    ProtectedBegin,
    ProtectedAlgorithm,
    ProtectedRead(MgmAlgorithmId),
    ProtectedGetMgm(MgmAlgorithmId),
    Finished(Result<KeyModel, Error>),
}

impl LookupModel {
    /// The next thing to do.
    pub open spec fn step(self) -> LookupStepModel {
        match self {
            LookupModel::DerivedBegin(_) => LookupStepModel::Ask(RequestModel::BeginTransaction),
            LookupModel::DerivedReadAdmin(_) => LookupStepModel::Ask(RequestModel::ReadAdminData),
            LookupModel::DerivedGetSalt(_) => LookupStepModel::Ask(
                RequestModel::GetAdminItem(AdminTag::Salt),
            ),
            LookupModel::ProtectedBegin => LookupStepModel::Ask(RequestModel::BeginTransaction),
            LookupModel::ProtectedAlgorithm => LookupStepModel::AskAlgorithm,
            LookupModel::ProtectedRead(_) => LookupStepModel::Ask(RequestModel::ReadProtectedData),
            LookupModel::ProtectedGetMgm(_) => LookupStepModel::Ask(
                RequestModel::GetProtectedItem(ProtectedTag::Mgm),
            ),
            LookupModel::Finished(r) => LookupStepModel::Return(r),
        }
    }

    /// The lookup after the operation that it waits for went as `reply` says. Every failure is
    /// the result of the lookup. One that waits for no operation stays as it is.
    pub open spec fn next(self, reply: Result<Seq<u8>, Error>) -> Self {
        if self is ProtectedAlgorithm || self is Finished {
            self
        } else {
            match reply {
                Err(e) => LookupModel::Finished(Err(e)),
                Ok(item) => match self {
                    LookupModel::DerivedBegin(pin) => LookupModel::DerivedReadAdmin(pin),
                    LookupModel::DerivedReadAdmin(pin) => LookupModel::DerivedGetSalt(pin),
                    LookupModel::DerivedGetSalt(pin) => LookupModel::Finished(
                        crate::key::derived_key(item, pin),
                    ),
                    LookupModel::ProtectedBegin => LookupModel::ProtectedAlgorithm,
                    LookupModel::ProtectedRead(alg) => LookupModel::ProtectedGetMgm(alg),
                    LookupModel::ProtectedGetMgm(alg) => LookupModel::Finished(
                        crate::key::protected_key(alg, item),
                    ),
                    other => other,
                },
            }
        }
    }

    /// If the lookup has found a key, it is as long as its algorithm demands and not weak.
    pub open spec fn is_sound(self) -> bool {
        self matches LookupModel::Finished(Ok(key)) ==> key.well_formed() && !key.is_weak()
    }

    /// The most steps that the lookup can still take before its result.
    pub open spec fn remaining(self) -> nat {
        match self {
            LookupModel::DerivedBegin(_) => 3,
            LookupModel::DerivedReadAdmin(_) => 2,
            LookupModel::DerivedGetSalt(_) => 1,
            LookupModel::ProtectedBegin => 4,
            LookupModel::ProtectedAlgorithm => 3,
            LookupModel::ProtectedRead(_) => 2,
            LookupModel::ProtectedGetMgm(_) => 1,
            LookupModel::Finished(_) => 0,
        }
    }

    /// The lookup after it is told which algorithm the metadata of the management slot name. One
    /// that does not wait for that stays as it is.
    pub open spec fn next_algorithm(self, metadata: Result<ManagementAlgorithmId, Error>) -> Self {
        match self {
            LookupModel::ProtectedAlgorithm => match crate::algorithm::queried_algorithm(
                metadata,
            ) {
                Ok(alg) => LookupModel::ProtectedRead(alg),
                Err(e) => LookupModel::Finished(Err(e)),
            },
            other => other,
        }
    }
}

/// A lookup of the management key.
pub struct KeyLookup(LookupStage);

enum LookupStage {
    DerivedBegin(Vec<u8>),
    DerivedReadAdmin(Vec<u8>),
    DerivedGetSalt(Vec<u8>),
    ProtectedBegin,
    ProtectedAlgorithm,
    ProtectedRead(MgmAlgorithmId),
    ProtectedGetMgm(MgmAlgorithmId),
    Finished(Result<MgmKey, Error>),
}

impl View for KeyLookup {
    type V = LookupModel;

    closed spec fn view(&self) -> LookupModel {
        match self.0 {
            LookupStage::DerivedBegin(pin) => LookupModel::DerivedBegin(pin@),
            LookupStage::DerivedReadAdmin(pin) => LookupModel::DerivedReadAdmin(pin@),
            LookupStage::DerivedGetSalt(pin) => LookupModel::DerivedGetSalt(pin@),
            LookupStage::ProtectedBegin => LookupModel::ProtectedBegin,
            LookupStage::ProtectedAlgorithm => LookupModel::ProtectedAlgorithm,
            LookupStage::ProtectedRead(alg) => LookupModel::ProtectedRead(alg),
            LookupStage::ProtectedGetMgm(alg) => LookupModel::ProtectedGetMgm(alg),
            LookupStage::Finished(r) => LookupModel::Finished(crate::key::outcome(r)),
        }
    }
}

impl KeyLookup {
    /// The next thing to do for this lookup.
    pub fn step(&self) -> (step: LookupStep)
        ensures
            step@ == self@.step(),
    {
        match &self.0 {
            LookupStage::DerivedBegin(_) => LookupStep::Ask(Request::BeginTransaction),
            LookupStage::DerivedReadAdmin(_) => LookupStep::Ask(Request::ReadAdminData),
            LookupStage::DerivedGetSalt(_) => LookupStep::Ask(
                Request::GetAdminItem(AdminTag::Salt),
            ),
            LookupStage::ProtectedBegin => LookupStep::Ask(Request::BeginTransaction),
            LookupStage::ProtectedAlgorithm => LookupStep::AskAlgorithm,
            LookupStage::ProtectedRead(_) => LookupStep::Ask(Request::ReadProtectedData),
            LookupStage::ProtectedGetMgm(_) => LookupStep::Ask(
                Request::GetProtectedItem(ProtectedTag::Mgm),
            ),
            LookupStage::Finished(Ok(key)) => LookupStep::Return(Ok(key.clone())),
            LookupStage::Finished(Err(e)) => LookupStep::Return(Err(*e)),
        }
    }

    /// Tells the lookup how the operation went that it asked for last. For one that looks an item
    /// up the reply holds the bytes of the item; for others what it holds does not matter.
    ///
    /// A lookup that waits for no operation comes back as it is.
    pub fn resume(self, reply: Result<Vec<u8>, Error>) -> (lookup: Self)
        ensures
            lookup@ == self@.next(crate::request::reply_model(reply)),
            self@.step() is Ask ==> lookup@.remaining() < self@.remaining(),
            self@ matches LookupModel::DerivedGetSalt(pin) ==> match (reply, lookup@) {
                (Ok(salt), LookupModel::Finished(Ok(key))) => {
                    &&& salt@.len() == 16
                    &&& key.algorithm == MgmAlgorithmId::ThreeDes
                    &&& key.bytes == crate::primitives::pbkdf2_hmac_sha1(pin, salt@, 10000, 24)
                },
                (Ok(salt), LookupModel::Finished(Err(e))) => if salt@.len() == 16 {
                    &&& e == Error::KeyError
                    &&& crate::weak::is_weak_tdes(
                        crate::primitives::pbkdf2_hmac_sha1(pin, salt@, 10000, 24),
                    )
                } else {
                    e == Error::GenericError
                },
                (Err(e), LookupModel::Finished(r)) => r == Err::<KeyModel, Error>(e),
                _ => false,
            },
            self@ is DerivedGetSalt && reply is Ok && reply->Ok_0@.len()
                == crate::key::CB_ADMIN_SALT ==> (lookup@ matches LookupModel::Finished(r) && (r
                is Ok || r->Err_0 == Error::KeyError)),
    {
        let item = match reply {
            Ok(item) => item,
            Err(e) => {
                return match self.0 {
                    LookupStage::ProtectedAlgorithm => self,
                    LookupStage::Finished(_) => self,
                    _ => KeyLookup(LookupStage::Finished(Err(e))),
                };
            },
        };
        KeyLookup(
            match self.0 {
                LookupStage::DerivedBegin(pin) => LookupStage::DerivedReadAdmin(pin),
                // recover management key
                LookupStage::DerivedReadAdmin(pin) => LookupStage::DerivedGetSalt(pin),
                LookupStage::DerivedGetSalt(pin) => LookupStage::Finished(
                    MgmKey::derive(item.as_slice(), pin.as_slice()),
                ),
                LookupStage::ProtectedBegin => LookupStage::ProtectedAlgorithm,
                LookupStage::ProtectedRead(alg) => LookupStage::ProtectedGetMgm(alg),
                LookupStage::ProtectedGetMgm(alg) => LookupStage::Finished(
                    MgmKey::parse_protected(alg, item.as_slice()),
                ),
                other => other,
            },
        )
    }

    /// Tells the lookup which algorithm the metadata of the management slot name, or why the
    /// device does not say.
    ///
    /// A lookup that does not wait for the algorithm comes back as it is.
    pub fn resume_algorithm(self, metadata: Result<ManagementAlgorithmId, Error>) -> (lookup: Self)
        ensures
            lookup@ == self@.next_algorithm(metadata),
            self@.step() is AskAlgorithm ==> lookup@.remaining() < self@.remaining(),
    {
        match self.0 {
            LookupStage::ProtectedAlgorithm => match MgmAlgorithmId::query(metadata) {
                Ok(alg) => KeyLookup(LookupStage::ProtectedRead(alg)),
                Err(e) => KeyLookup(LookupStage::Finished(Err(e))),
            },
            other => KeyLookup(other),
        }
    }
}

impl MgmKey {
    /// Derives a 3DES management key (MGM) from a stored salt.
    ///
    /// # Security
    ///
    /// Warning: PIN-derived mode is not secure. You should not use this technique. It is
    /// offered only for backwards compatibility.
    pub fn get_derived(pin: &[u8]) -> (lookup: KeyLookup)
        ensures
            lookup@ == LookupModel::DerivedBegin(pin@),
    {
        KeyLookup(LookupStage::DerivedBegin(slice_to_vec(pin)))
    }

    /// Get protected management key (MGM)
    pub fn get_protected() -> (lookup: KeyLookup)
        ensures
            lookup@ == LookupModel::ProtectedBegin,
    {
        KeyLookup(LookupStage::ProtectedBegin)
    }
}

/// No lookup finds a weak key, whatever it is told.
pub proof fn law_found_keys_are_not_weak(
    lookup: LookupModel,
    reply: Result<Seq<u8>, Error>,
    metadata: Result<ManagementAlgorithmId, Error>,
    pin: Seq<u8>,
)
    requires
        lookup.is_sound(),
    ensures
        LookupModel::DerivedBegin(pin).is_sound(),
        LookupModel::ProtectedBegin.is_sound(),
        lookup.next(reply).is_sound(),
        lookup.next_algorithm(metadata).is_sound(),
{
}

/// A lookup that is refused an operation ends with the error that this gave.
pub proof fn law_failures_end_lookup(lookup: LookupModel, e: Error)
    requires
        lookup.step() is Ask,
    ensures
        lookup.next(Err(e)).step() == LookupStepModel::Return(Err(e)),
{
}

/// The model of a step holds the operation, or the key or error that the lookup ended with.
pub proof fn law_lookup_step_is_its_model(step: LookupStep)
    ensures
        step matches LookupStep::Ask(request) ==> step@ == LookupStepModel::Ask(request@),
        step is AskAlgorithm <==> step@ is AskAlgorithm,
        step matches LookupStep::Return(Ok(key)) ==> step@ == LookupStepModel::Return(Ok(key@)),
        step matches LookupStep::Return(Err(e)) ==> step@ == LookupStepModel::Return(Err(e)),
{
}

/// A lookup only reads: it asks for no operation that changes the device or its metadata.
pub proof fn law_lookup_only_reads(lookup: LookupModel)
    ensures
        lookup.step() matches LookupStepModel::Ask(request) ==> {
            ||| request is BeginTransaction
            ||| request is ReadAdminData
            ||| request is ReadProtectedData
            ||| request == RequestModel::GetAdminItem(AdminTag::Salt)
            ||| request == RequestModel::GetProtectedItem(ProtectedTag::Mgm)
        },
{
}

/// A lookup listens only to what it asked for.
pub proof fn law_lookup_waits_for_what_it_asked_for(
    lookup: LookupModel,
    reply: Result<Seq<u8>, Error>,
    metadata: Result<ManagementAlgorithmId, Error>,
)
    ensures
        !(lookup.step() is Ask) ==> lookup.next(reply) == lookup,
        !(lookup.step() is AskAlgorithm) ==> lookup.next_algorithm(metadata) == lookup,
{
}

} // verus!
