//! Changing the management key of a YubiKey, and the metadata that tells how the key is kept.
//!
//! A change is a conversation: it asks for one operation on the device or on the metadata at a
//! time, is told how the operation went, and in the end says how the change as a whole went.

use crate::algorithm::{MgmAlgorithmId, Version};
use crate::error::Error;
use crate::key::{KeyModel, MgmKey};
use crate::request::{AdminTag, ProtectedTag, Request, RequestModel};
use vstd::prelude::*;
use vstd::slice::slice_to_vec;

verus! {

/// The bit of the first admin flags that says that the management key is protected.
pub const ADMIN_FLAGS_1_PROTECTED_MGM: u8 = 0x02;

/// The next thing to do for a change.
pub enum Step {
    /// Perform this operation, and tell the change how it went
    Ask(Request),

    /// The change is over, with this result
    Return(Result<(), Error>),
}

/// What a `Step` is.
pub enum StepModel {
    Ask(RequestModel),
    Return(Result<(), Error>),
}

impl View for Step {
    type V = StepModel;

    open spec fn view(&self) -> StepModel {
        match *self {
            Step::Ask(request) => StepModel::Ask(request@),
            Step::Return(r) => StepModel::Return(r),
        }
    }
}

/// How the new management key is to be kept.
#[derive(Copy, Clone, Debug, Eq, PartialEq, Structural)]
pub enum Keeping {
    /// By the user, who is asked to touch the device for its use or not
    Manual { require_touch: bool },

    /// In the protected data of the device, which the PIN opens
    Protected,
}

/// How far a change has come: the operation that it waits for, or its result.
///
/// The names that begin with `Manual` and with `Protected` are those of the two ways to keep the
/// key, which part once the key is set.
#[derive(Copy, Clone, Debug)]
pub enum Stage {
    Begin(Keeping),
    SetKey(Keeping),
    ManualReadAdmin,
    ManualGetFlags,
    ManualSetFlags(u8),
    ManualClearSalt,
    ManualWriteAdmin,
    ManualReadProtected,
    ManualClearMgm,
    ManualWriteProtected,
    ProtectedRead,
    ProtectedNew,
    ProtectedSetMgm,
    ProtectedWrite,
    ProtectedReadAdmin,
    ProtectedNewAdmin,
    ProtectedGetFlags,
    ProtectedClearSalt(u8),
    ProtectedSetFlags(u8),
    ProtectedWriteAdmin,
    Finished(Result<(), Error>),
}

/// What a `KeyUpdate` is.
pub struct UpdateModel {
    pub key: KeyModel,
    pub stage: Stage,
}

impl UpdateModel {
    /// A change before its first step.
    pub open spec fn start(key: KeyModel, keeping: Keeping) -> Self {
        UpdateModel { key, stage: Stage::Begin(keeping) }
    }

    /// The next thing to do.
    pub open spec fn step(self) -> StepModel {
        match self.stage {
            Stage::Begin(_) => StepModel::Ask(RequestModel::BeginTransaction),
            Stage::SetKey(keeping) => StepModel::Ask(
                RequestModel::SetMgmKey {
                    key: self.key,
                    require_touch: keeping == Keeping::Manual { require_touch: true },
                },
            ),
            Stage::ManualReadAdmin => StepModel::Ask(RequestModel::ReadAdminData),
            Stage::ManualGetFlags => StepModel::Ask(RequestModel::GetAdminItem(AdminTag::Flags1)),
            Stage::ManualSetFlags(flags) => StepModel::Ask(
                RequestModel::SetAdminItem(AdminTag::Flags1, seq![flags]),
            ),
            Stage::ManualClearSalt => StepModel::Ask(
                RequestModel::SetAdminItem(AdminTag::Salt, seq![]),
            ),
            Stage::ManualWriteAdmin => StepModel::Ask(RequestModel::WriteAdminData),
            Stage::ManualReadProtected => StepModel::Ask(RequestModel::ReadProtectedData),
            Stage::ManualClearMgm => StepModel::Ask(
                RequestModel::SetProtectedItem(ProtectedTag::Mgm, seq![]),
            ),
            Stage::ManualWriteProtected => StepModel::Ask(RequestModel::WriteProtectedData),
            Stage::ProtectedRead => StepModel::Ask(RequestModel::ReadProtectedData),
            Stage::ProtectedNew => StepModel::Ask(RequestModel::NewProtectedData),
            Stage::ProtectedSetMgm => StepModel::Ask(
                RequestModel::SetProtectedItem(ProtectedTag::Mgm, self.key.bytes),
            ),
            Stage::ProtectedWrite => StepModel::Ask(RequestModel::WriteProtectedData),
            Stage::ProtectedReadAdmin => StepModel::Ask(RequestModel::ReadAdminData),
            Stage::ProtectedNewAdmin => StepModel::Ask(RequestModel::NewAdminData),
            Stage::ProtectedGetFlags => StepModel::Ask(
                RequestModel::GetAdminItem(AdminTag::Flags1),
            ),
            Stage::ProtectedClearSalt(_) => StepModel::Ask(
                RequestModel::SetAdminItem(AdminTag::Salt, seq![]),
            ),
            Stage::ProtectedSetFlags(flags) => StepModel::Ask(
                RequestModel::SetAdminItem(AdminTag::Flags1, seq![flags]),
            ),
            Stage::ProtectedWriteAdmin => StepModel::Ask(RequestModel::WriteAdminData),
            Stage::Finished(r) => StepModel::Return(r),
        }
    }

    /// The stage after the operation that the change waits for went as `reply` says.
    pub open spec fn next_stage(self, reply: Result<Seq<u8>, Error>) -> Stage {
        match self.stage {
            Stage::Begin(keeping) => match reply {
                Ok(_) => Stage::SetKey(keeping),
                Err(e) => Stage::Finished(Err(e)),
            },
            Stage::SetKey(keeping) => match reply {
                Ok(_) => match keeping {
                    Keeping::Manual { .. } => Stage::ManualReadAdmin,
                    Keeping::Protected => Stage::ProtectedRead,
                },
                Err(e) => Stage::Finished(Err(e)),
            },
            Stage::ManualReadAdmin => if reply is Ok {
                Stage::ManualGetFlags
            } else {
                Stage::ManualReadProtected
            },
            Stage::ManualGetFlags => match reply {
                Ok(item) if item.len() == 1 => Stage::ManualSetFlags(
                    item[0] & !ADMIN_FLAGS_1_PROTECTED_MGM,
                ),
                _ => Stage::ManualClearSalt,
            },
            Stage::ManualSetFlags(_) => Stage::ManualClearSalt,
            Stage::ManualClearSalt => Stage::ManualWriteAdmin,
            Stage::ManualWriteAdmin => Stage::ManualReadProtected,
            Stage::ManualReadProtected => if reply is Ok {
                Stage::ManualClearMgm
            } else {
                Stage::Finished(Ok(()))
            },
            Stage::ManualClearMgm => if reply is Ok {
                Stage::ManualWriteProtected
            } else {
                Stage::Finished(Ok(()))
            },
            Stage::ManualWriteProtected => Stage::Finished(Ok(())),
            Stage::ProtectedRead => if reply is Ok {
                Stage::ProtectedSetMgm
            } else {
                Stage::ProtectedNew
            },
            Stage::ProtectedNew => Stage::ProtectedSetMgm,
            Stage::ProtectedSetMgm => if reply is Ok {
                Stage::ProtectedWrite
            } else {
                Stage::ProtectedReadAdmin
            },
            Stage::ProtectedWrite => match reply {
                Ok(_) => Stage::ProtectedReadAdmin,
                Err(e) => Stage::Finished(Err(e)),
            },
            Stage::ProtectedReadAdmin => if reply is Ok {
                Stage::ProtectedGetFlags
            } else {
                Stage::ProtectedNewAdmin
            },
            Stage::ProtectedNewAdmin => Stage::ProtectedSetFlags(ADMIN_FLAGS_1_PROTECTED_MGM),
            Stage::ProtectedGetFlags => match reply {
                Ok(item) if item.len() == 1 => Stage::ProtectedClearSalt(item[0]),
                _ => Stage::ProtectedClearSalt(0),
            },
            Stage::ProtectedClearSalt(flags) => Stage::ProtectedSetFlags(
                flags | ADMIN_FLAGS_1_PROTECTED_MGM,
            ),
            Stage::ProtectedSetFlags(_) => if reply is Ok {
                Stage::ProtectedWriteAdmin
            } else {
                Stage::Finished(Ok(()))
            },
            Stage::ProtectedWriteAdmin => Stage::Finished(Ok(())),
            Stage::Finished(r) => Stage::Finished(r),
        }
    }

    /// The change after the operation that it waits for went as `reply` says.
    pub open spec fn next(self, reply: Result<Seq<u8>, Error>) -> Self {
        UpdateModel { key: self.key, stage: self.next_stage(reply) }
    }

    /// The change after it is told, one after the other, how the operations went that it asked
    /// for.
    pub open spec fn after(self, replies: Seq<Result<Seq<u8>, Error>>) -> Self
        decreases replies.len(),
    {
        if replies.len() == 0 {
            self
        } else {
            self.next(replies[0]).after(replies.drop_first())
        }
    }

    /// The most operations that the change can still ask for.
    pub open spec fn remaining(self) -> nat {
        match self.stage {
            Stage::Begin(Keeping::Manual { .. }) => 10,
            Stage::Begin(Keeping::Protected) => 11,
            Stage::SetKey(Keeping::Manual { .. }) => 9,
            Stage::SetKey(Keeping::Protected) => 10,
            Stage::ManualReadAdmin => 8,
            Stage::ManualGetFlags => 7,
            Stage::ManualSetFlags(_) => 6,
            Stage::ManualClearSalt => 5,
            Stage::ManualWriteAdmin => 4,
            Stage::ManualReadProtected => 3,
            Stage::ManualClearMgm => 2,
            Stage::ManualWriteProtected => 1,
            Stage::ProtectedRead => 9,
            Stage::ProtectedNew => 8,
            Stage::ProtectedSetMgm => 7,
            Stage::ProtectedWrite => 6,
            Stage::ProtectedReadAdmin => 5,
            Stage::ProtectedNewAdmin => 3,
            Stage::ProtectedGetFlags => 4,
            Stage::ProtectedClearSalt(_) => 3,
            Stage::ProtectedSetFlags(_) => 2,
            Stage::ProtectedWriteAdmin => 1,
            Stage::Finished(_) => 0,
        }
    }
}

/// A change of the management key.
pub struct KeyUpdate {
    key: MgmKey,
    stage: Stage,
}

impl View for KeyUpdate {
    type V = UpdateModel;

    closed spec fn view(&self) -> UpdateModel {
        UpdateModel { key: self.key@, stage: self.stage }
    }
}

impl KeyUpdate {
    /// The next thing to do for this change.
    pub fn step(&self) -> (step: Step)
        ensures
            step@ == self@.step(),
    {
        match self.stage {
            Stage::Begin(_) => Step::Ask(Request::BeginTransaction),
            Stage::SetKey(keeping) => {
                let require_touch: bool = match keeping {
                    Keeping::Manual { require_touch } => require_touch,
                    Keeping::Protected => false,
                };
                Step::Ask(Request::SetMgmKey { key: self.key.clone(), require_touch })
            },
            // Clear the protected mgm key bit.
            Stage::ManualReadAdmin => Step::Ask(Request::ReadAdminData),
            Stage::ManualGetFlags => Step::Ask(Request::GetAdminItem(AdminTag::Flags1)),
            Stage::ManualSetFlags(flags) => Self::set_flags(flags),
            // Remove any existing salt for a derived mgm key.
            Stage::ManualClearSalt => Self::clear_salt(),
            Stage::ManualWriteAdmin => Step::Ask(Request::WriteAdminData),
            // Clear any prior mgm key from protected data.
            Stage::ManualReadProtected => Step::Ask(Request::ReadProtectedData),
            Stage::ManualClearMgm => {
                let none: Vec<u8> = Vec::new();
                assert(none@ =~= seq![]);
                Step::Ask(Request::SetProtectedItem(ProtectedTag::Mgm, none))
            },
            Stage::ManualWriteProtected => Step::Ask(Request::WriteProtectedData),
            // Fetch the current protected data, or start a blank metadata blob.
            Stage::ProtectedRead => Step::Ask(Request::ReadProtectedData),
            Stage::ProtectedNew => Step::Ask(Request::NewProtectedData),
            // Set the new mgm key in protected data.
            Stage::ProtectedSetMgm => Step::Ask(
                Request::SetProtectedItem(ProtectedTag::Mgm, slice_to_vec(self.key.as_ref())),
            ),
            Stage::ProtectedWrite => Step::Ask(Request::WriteProtectedData),
            // Set the protected mgm flag in admin data.
            Stage::ProtectedReadAdmin => Step::Ask(Request::ReadAdminData),
            Stage::ProtectedNewAdmin => Step::Ask(Request::NewAdminData),
            Stage::ProtectedGetFlags => Step::Ask(Request::GetAdminItem(AdminTag::Flags1)),
            Stage::ProtectedClearSalt(_) => Self::clear_salt(),
            Stage::ProtectedSetFlags(flags) => Self::set_flags(flags),
            Stage::ProtectedWriteAdmin => Step::Ask(Request::WriteAdminData),
            Stage::Finished(r) => Step::Return(r),
        }
    }

    /// Asks for the first admin flags to be set.
    fn set_flags(flags: u8) -> (step: Step)
        ensures
            step@ == StepModel::Ask(RequestModel::SetAdminItem(AdminTag::Flags1, seq![flags])),
    {
        let value: Vec<u8> = vec![flags];
        assert(value@ =~= seq![flags]);
        Step::Ask(Request::SetAdminItem(AdminTag::Flags1, value))
    }

    /// Asks for the salt to be removed.
    fn clear_salt() -> (step: Step)
        ensures
            step@ == StepModel::Ask(RequestModel::SetAdminItem(AdminTag::Salt, seq![])),
    {
        let none: Vec<u8> = Vec::new();
        assert(none@ =~= seq![]);
        Step::Ask(Request::SetAdminItem(AdminTag::Salt, none))
    }

    /// Tells the change how the operation went that it asked for last. For one that looks an item
    /// up the reply holds the bytes of the item; for others what it holds does not matter.
    ///
    /// A change that is over stays as it is.
    pub fn resume(&mut self, reply: Result<Vec<u8>, Error>)
        ensures
            final(self)@ == old(self)@.next(crate::request::reply_model(reply)),
            old(self)@.remaining() > 0 ==> final(self)@.remaining() < old(self)@.remaining(),
    {
        self.stage = match self.stage {
            Stage::Begin(keeping) => match reply {
                Ok(_) => Stage::SetKey(keeping),
                Err(e) => Stage::Finished(Err(e)),
            },
            Stage::SetKey(keeping) => match reply {
                Ok(_) => match keeping {
                    // After this point, we've set the mgm key, so the change should succeed,
                    // regardless of being able to set the metadata.
                    Keeping::Manual { .. } => Stage::ManualReadAdmin,
                    Keeping::Protected => Stage::ProtectedRead,
                },
                // The device mgm key is corrupt or we're in a state where we can't set the mgm
                // key.
                Err(e) => Stage::Finished(Err(e)),
            },
            Stage::ManualReadAdmin => match reply {
                Ok(_) => Stage::ManualGetFlags,
                Err(_) => Stage::ManualReadProtected,
            },
            Stage::ManualGetFlags => match Self::flags_item(&reply) {
                Some(flags) => Stage::ManualSetFlags(flags & !ADMIN_FLAGS_1_PROTECTED_MGM),
                None => Stage::ManualClearSalt,
            },
            Stage::ManualSetFlags(_) => Stage::ManualClearSalt,
            Stage::ManualClearSalt => Stage::ManualWriteAdmin,
            Stage::ManualWriteAdmin => Stage::ManualReadProtected,
            Stage::ManualReadProtected => match reply {
                Ok(_) => Stage::ManualClearMgm,
                Err(_) => Stage::Finished(Ok(())),
            },
            Stage::ManualClearMgm => match reply {
                Ok(_) => Stage::ManualWriteProtected,
                Err(_) => Stage::Finished(Ok(())),
            },
            Stage::ManualWriteProtected => Stage::Finished(Ok(())),
            Stage::ProtectedRead => match reply {
                Ok(_) => Stage::ProtectedSetMgm,
                Err(_) => Stage::ProtectedNew,
            },
            Stage::ProtectedNew => Stage::ProtectedSetMgm,
            Stage::ProtectedSetMgm => match reply {
                Ok(_) => Stage::ProtectedWrite,
                Err(_) => Stage::ProtectedReadAdmin,
            },
            Stage::ProtectedWrite => match reply {
                Ok(_) => Stage::ProtectedReadAdmin,
                // Without the key in the protected data, the PIN does not give access to it.
                Err(e) => Stage::Finished(Err(e)),
            },
            Stage::ProtectedReadAdmin => match reply {
                Ok(_) => Stage::ProtectedGetFlags,
                Err(_) => Stage::ProtectedNewAdmin,
            },
            Stage::ProtectedNewAdmin => Stage::ProtectedSetFlags(ADMIN_FLAGS_1_PROTECTED_MGM),
            Stage::ProtectedGetFlags => match Self::flags_item(&reply) {
                Some(flags) => Stage::ProtectedClearSalt(flags),
                None => Stage::ProtectedClearSalt(0),
            },
            Stage::ProtectedClearSalt(flags) => Stage::ProtectedSetFlags(
                flags | ADMIN_FLAGS_1_PROTECTED_MGM,
            ),
            Stage::ProtectedSetFlags(_) => match reply {
                Ok(_) => Stage::ProtectedWriteAdmin,
                Err(_) => Stage::Finished(Ok(())),
            },
            Stage::ProtectedWriteAdmin => Stage::Finished(Ok(())),
            Stage::Finished(r) => Stage::Finished(r),
        };
    }

    /// The first admin flags, if there is an item for them and it has the size of one byte.
    fn flags_item(reply: &Result<Vec<u8>, Error>) -> (flags: Option<u8>)
        ensures
            flags == match crate::request::reply_model(*reply) {
                Ok(item) if item.len() == 1 => Some(item[0]),
                _ => None,
            },
    {
        match reply {
            Ok(item) => if item.len() == 1 {
                Some(item[0])
            } else {
                None
            },
            Err(_) => None,
        }
    }
}

impl MgmKey {
    /// Resets the management key of a YubiKey to the default value for its firmware version.
    ///
    /// This will wipe any metadata related to derived and PIN-protected management keys.
    pub fn set_default(version: Version) -> (r: Result<KeyUpdate, Error>)
        ensures
            match r {
                Ok(update) => update@ == UpdateModel::start(
                    KeyModel {
                        algorithm: version.default_algorithm_spec(),
                        bytes: crate::key::DEFAULT_MGM_KEY@,
                    },
                    Keeping::Manual { require_touch: false },
                ),
                Err(_) => false,
            },
            r matches Ok(update) ==> update@.key.algorithm == if version.major > 5 || (version.major
                == 5 && version.minor >= 7) {
                MgmAlgorithmId::Aes192
            } else {
                MgmAlgorithmId::ThreeDes
            },
    {
        match Self::get_default(version) {
            Ok(key) => Ok(key.set_manual(false)),
            Err(e) => Err(e),
        }
    }

    /// Configures a YubiKey to use this management key.
    ///
    /// The management key must be stored by the user, and provided when performing key
    /// management operations.
    ///
    /// This will wipe any metadata related to derived and PIN-protected management keys.
    pub fn set_manual(&self, require_touch: bool) -> (update: KeyUpdate)
        ensures
            update@ == UpdateModel::start(self@, Keeping::Manual { require_touch }),
            !update@.key.is_weak(),
    {
        proof {
            use_type_invariant(self);
        }
        KeyUpdate { key: self.clone(), stage: Stage::Begin(Keeping::Manual { require_touch }) }
    }

    /// Configures a YubiKey to use this as a PIN-protected management key.
    ///
    /// This enables key management operations to be performed with access to the PIN.
    pub fn set_protected(&self) -> (update: KeyUpdate)
        ensures
            update@ == UpdateModel::start(self@, Keeping::Protected),
            !update@.key.is_weak(),
    {
        proof {
            use_type_invariant(self);
        }
        KeyUpdate { key: self.clone(), stage: Stage::Begin(Keeping::Protected) }
    }
}

/// Clearing the protected bit of the flags, and setting it, leaves the other bits as they are.
pub proof fn law_flags_keep_other_bits(flags: u8)
    ensures
        (flags & !ADMIN_FLAGS_1_PROTECTED_MGM) & ADMIN_FLAGS_1_PROTECTED_MGM == 0,
        (flags | ADMIN_FLAGS_1_PROTECTED_MGM) & ADMIN_FLAGS_1_PROTECTED_MGM
            == ADMIN_FLAGS_1_PROTECTED_MGM,
        (flags & !ADMIN_FLAGS_1_PROTECTED_MGM) | ADMIN_FLAGS_1_PROTECTED_MGM == flags
            | ADMIN_FLAGS_1_PROTECTED_MGM,
        (flags | ADMIN_FLAGS_1_PROTECTED_MGM) & !ADMIN_FLAGS_1_PROTECTED_MGM == flags
            & !ADMIN_FLAGS_1_PROTECTED_MGM,
{
    assert((flags & !0x02u8) & 0x02u8 == 0) by (bit_vector);
    assert((flags | 0x02u8) & 0x02u8 == 0x02u8) by (bit_vector);
    assert((flags & !0x02u8) | 0x02u8 == flags | 0x02u8) by (bit_vector);
    assert((flags | 0x02u8) & !0x02u8 == flags & !0x02u8) by (bit_vector);
}

/// A change ends, however its operations go, once it is told of as many as it can ask for.
pub proof fn law_change_ends(update: UpdateModel, replies: Seq<Result<Seq<u8>, Error>>)
    requires
        replies.len() >= update.remaining(),
    ensures
        update.after(replies).stage is Finished,
    decreases replies.len(),
{
    if replies.len() > 0 {
        law_change_ends(update.next(replies[0]), replies.drop_first());
    }
}

/// A change that is over stays as it is.
pub proof fn law_end_is_final(update: UpdateModel, replies: Seq<Result<Seq<u8>, Error>>)
    requires
        update.stage is Finished,
    ensures
        update.after(replies) == update,
    decreases replies.len(),
{
    if replies.len() > 0 {
        law_end_is_final(update.next(replies[0]), replies.drop_first());
    }
}

/// A change first begins a transaction and then sets the key, and asks for nothing else if one of
/// the two fails: it ends with the failure.
pub proof fn law_key_is_set_first(
    key: KeyModel,
    keeping: Keeping,
    begun: Seq<u8>,
    e: Error,
)
    ensures
        UpdateModel::start(key, keeping).step() == StepModel::Ask(RequestModel::BeginTransaction),
        UpdateModel::start(key, keeping).next(Err(e)).step() == StepModel::Return(Err(e)),
        UpdateModel::start(key, keeping).next(Ok(begun)).step() == StepModel::Ask(
            RequestModel::SetMgmKey {
                key,
                require_touch: keeping == Keeping::Manual { require_touch: true },
            },
        ),
        UpdateModel::start(key, keeping).next(Ok(begun)).next(Err(e)).step() == StepModel::Return(
            Err(e),
        ),
{
}

/// The stages of a manual change once the key is set, its end in success among them.
pub open spec fn is_manual_metadata_stage(stage: Stage) -> bool {
    match stage {
        Stage::ManualReadAdmin => true,
        Stage::ManualGetFlags => true,
        Stage::ManualSetFlags(_) => true,
        Stage::ManualClearSalt => true,
        Stage::ManualWriteAdmin => true,
        Stage::ManualReadProtected => true,
        Stage::ManualClearMgm => true,
        Stage::ManualWriteProtected => true,
        Stage::Finished(r) => r is Ok,
        _ => false,
    }
}

/// The stages of a protected change once the key is set, its end in success among them.
pub open spec fn is_protected_metadata_stage(stage: Stage) -> bool {
    match stage {
        Stage::ProtectedRead => true,
        Stage::ProtectedNew => true,
        Stage::ProtectedSetMgm => true,
        Stage::ProtectedWrite => true,
        Stage::ProtectedReadAdmin => true,
        Stage::ProtectedNewAdmin => true,
        Stage::ProtectedGetFlags => true,
        Stage::ProtectedClearSalt(_) => true,
        Stage::ProtectedSetFlags(_) => true,
        Stage::ProtectedWriteAdmin => true,
        Stage::Finished(r) => r is Ok,
        _ => false,
    }
}

/// Once the key is set, a manual change succeeds, whether or not the metadata can be set.
pub proof fn law_manual_change_succeeds_once_key_is_set(
    update: UpdateModel,
    replies: Seq<Result<Seq<u8>, Error>>,
)
    requires
        is_manual_metadata_stage(update.stage),
    ensures
        is_manual_metadata_stage(update.after(replies).stage),
        update.after(replies).stage matches Stage::Finished(r) ==> r is Ok,
    decreases replies.len(),
{
    if replies.len() > 0 {
        law_manual_change_succeeds_once_key_is_set(
            update.next(replies[0]),
            replies.drop_first(),
        );
    }
}

/// Once the key is set, a protected change fails only if the protected data cannot be written,
/// and with the error that this gave.
pub proof fn law_protected_change_fails_only_on_write(
    update: UpdateModel,
    replies: Seq<Result<Seq<u8>, Error>>,
    e: Error,
)
    requires
        is_protected_metadata_stage(update.stage),
        update.after(replies).stage == Stage::Finished(Err(e)),
    ensures
        exists|i: int|
            0 <= i < replies.len() && update.after(#[trigger] replies.take(i)).stage
                is ProtectedWrite && replies[i] == Err::<Seq<u8>, Error>(e),
    decreases replies.len(),
{
    assert(replies.len() > 0);
    let next = update.next(replies[0]);
    let rest = replies.drop_first();
    if next.stage is Finished {
        law_end_is_final(next, rest);
        assert(replies.take(0).len() == 0);
        assert(update.after(replies.take(0)).stage is ProtectedWrite);
    } else {
        law_protected_change_fails_only_on_write(next, rest, e);
        let j = choose|j: int|
            0 <= j < rest.len() && next.after(#[trigger] rest.take(j)).stage is ProtectedWrite
                && rest[j] == Err::<Seq<u8>, Error>(e);
        let prefix = replies.take(j + 1);
        assert(prefix[0] == replies[0]);
        assert(prefix.drop_first() =~= rest.take(j));
        assert(update.after(prefix).stage is ProtectedWrite);
        assert(replies[j + 1] == Err::<Seq<u8>, Error>(e));
    }
}

/// The flags that a stage stores have the protected bit as the way to keep the key demands.
pub open spec fn stored_flags_fit(stage: Stage) -> bool {
    match stage {
        Stage::ManualSetFlags(flags) => flags & ADMIN_FLAGS_1_PROTECTED_MGM == 0,
        Stage::ProtectedSetFlags(flags) => flags & ADMIN_FLAGS_1_PROTECTED_MGM
            == ADMIN_FLAGS_1_PROTECTED_MGM,
        _ => true,
    }
}

/// However its operations go, a manual change stores only flags whose protected bit is clear, and
/// a protected change only flags whose protected bit is set.
pub proof fn law_stored_flags(update: UpdateModel, replies: Seq<Result<Seq<u8>, Error>>)
    requires
        stored_flags_fit(update.stage),
    ensures
        stored_flags_fit(update.after(replies).stage),
    decreases replies.len(),
{
    if replies.len() > 0 {
        match (update.stage, replies[0]) {
            (Stage::ManualGetFlags, Ok(item)) => law_flags_keep_other_bits(item[0]),
            (Stage::ProtectedClearSalt(flags), _) => law_flags_keep_other_bits(flags),
            (Stage::ProtectedNewAdmin, _) => {
                assert(0x02u8 & 0x02u8 == 0x02u8) by (bit_vector);
            },
            _ => {},
        }
        law_stored_flags(update.next(replies[0]), replies.drop_first());
    }
}

/// The model of a step holds the operation or the result.
pub proof fn law_step_is_its_model(step: Step)
    ensures
        step matches Step::Ask(request) ==> step@ == StepModel::Ask(request@),
        step matches Step::Return(r) ==> step@ == StepModel::Return(r),
{
}

/// A manual change asks for 10 operations at most, and a protected change for 11.
pub proof fn law_change_is_short(
    key: KeyModel,
    keeping: Keeping,
    replies: Seq<Result<Seq<u8>, Error>>,
)
    requires
        replies.len() == if keeping is Manual {
            10nat
        } else {
            11nat
        },
    ensures
        UpdateModel::start(key, keeping).after(replies).step() is Return,
{
    law_change_ends(UpdateModel::start(key, keeping), replies);
}

/// A change tells the key that it was started with to the device, and no other.
pub proof fn law_change_keeps_its_key(update: UpdateModel, replies: Seq<Result<Seq<u8>, Error>>)
    ensures
        update.after(replies).key == update.key,
        update.step() matches StepModel::Ask(RequestModel::SetMgmKey { key, .. }) ==> key
            == update.key,
        update.step() matches StepModel::Ask(RequestModel::SetProtectedItem(_, value)) ==> {
            value == update.key.bytes || value.len() == 0
        },
    decreases replies.len(),
{
    if replies.len() > 0 {
        law_change_keeps_its_key(update.next(replies[0]), replies.drop_first());
    }
}

/// What a change is told of an operation that looks no item up matters only in whether the
/// operation succeeded, and why not.
pub proof fn law_only_items_matter(update: UpdateModel, a: Seq<u8>, b: Seq<u8>)
    requires
        !(update.step() matches StepModel::Ask(RequestModel::GetAdminItem(_))),
    ensures
        update.next(Ok(a)) == update.next(Ok(b)),
{
}

/// What a change is told of taking blank metadata, which cannot fail, does not matter.
pub proof fn law_blank_metadata_can_be_had(
    update: UpdateModel,
    a: Result<Seq<u8>, Error>,
    b: Result<Seq<u8>, Error>,
)
    requires
        update.step() == StepModel::Ask(RequestModel::NewAdminData) || update.step()
            == StepModel::Ask(RequestModel::NewProtectedData),
    ensures
        update.next(a) == update.next(b),
{
}

} // verus!
