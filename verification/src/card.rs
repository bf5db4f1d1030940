//! What changes and lookups of the management key come to on a device that does what it is asked.

use crate::algorithm::{ManagementAlgorithmId, MgmAlgorithmId, Version};
use crate::error::Error;
use crate::key::{KeyModel, DEFAULT_MGM_KEY};
use crate::lookup::{LookupModel, LookupStepModel};
use crate::request::{AdminTag, ProtectedTag, RequestModel};
use crate::update::{Keeping, Stage, StepModel, UpdateModel, ADMIN_FLAGS_1_PROTECTED_MGM};
use vstd::prelude::*;

verus! {

/// A blob of metadata.
#[verifier::ext_equal]
#[verifier::reject_recursive_types(T)]
pub struct Blob<T> {
    /// The items that changes and lookups know of
    pub items: Map<T, Seq<u8>>,

    /// The items under other tags, by the numbers of the tags
    pub others: Map<u8, Seq<u8>>,
}

impl<T> Blob<T> {
    /// A blob without items.
    pub open spec fn blank() -> Self {
        Blob { items: Map::empty(), others: Map::empty() }
    }

    /// The blob after one of its items is set. An item that is set to no bytes is removed.
    pub open spec fn with_item(self, tag: T, value: Seq<u8>) -> Self {
        if value.len() == 0 {
            Blob { items: self.items.remove(tag), ..self }
        } else {
            Blob { items: self.items.insert(tag, value), ..self }
        }
    }
}

/// A device, with the drafts of its metadata, on which every operation succeeds that is not one
/// on something absent.
pub struct Card {
    /// The management key
    pub key: KeyModel,

    /// Whether the management key is to be used only with a touch of the device
    pub require_touch: bool,

    /// Whether the firmware knows of the metadata of slots
    pub has_metadata: bool,

    /// The admin data, if there are any
    pub admin: Option<Blob<AdminTag>>,

    /// The protected data, if there are any
    pub protected: Option<Blob<ProtectedTag>>,

    /// The draft of the admin data
    pub admin_draft: Blob<AdminTag>,

    /// The draft of the protected data
    pub protected_draft: Blob<ProtectedTag>,

    /// How an operation on something absent fails
    pub absent: Error,
}

/// The first flags of admin data, if there is an item for them of the right size.
pub open spec fn flags_of(items: Map<AdminTag, Seq<u8>>) -> Option<u8> {
    if items.dom().contains(AdminTag::Flags1) && items[AdminTag::Flags1].len() == 1 {
        Some(items[AdminTag::Flags1][0])
    } else {
        None
    }
}

/// The known items of the admin data after a manual change: the protected bit of the flags is
/// clear, if the flags have the right size, and there is no salt.
pub open spec fn manual_admin(items: Map<AdminTag, Seq<u8>>) -> Map<AdminTag, Seq<u8>> {
    match flags_of(items) {
        Some(flags) => items.insert(
            AdminTag::Flags1,
            seq![flags & !ADMIN_FLAGS_1_PROTECTED_MGM],
        ).remove(AdminTag::Salt),
        None => items.remove(AdminTag::Salt),
    }
}

/// The known items of the admin data after a protected change: there is no salt, and there are
/// flags of the right size, whose protected bit is set.
pub open spec fn protected_admin(items: Map<AdminTag, Seq<u8>>) -> Map<AdminTag, Seq<u8>> {
    let flags: u8 = match flags_of(items) {
        Some(flags) => flags | ADMIN_FLAGS_1_PROTECTED_MGM,
        None => ADMIN_FLAGS_1_PROTECTED_MGM,
    };
    items.remove(AdminTag::Salt).insert(AdminTag::Flags1, seq![flags])
}

/// The blob, or a blank one if there is none.
pub open spec fn or_blank<T>(blob: Option<Blob<T>>) -> Blob<T> {
    match blob {
        Some(blob) => blob,
        None => Blob::blank(),
    }
}

impl Card {
    /// The device after an operation.
    pub open spec fn after(self, request: RequestModel) -> Self {
        match request {
            RequestModel::SetMgmKey { key, require_touch } => Card { key, require_touch, ..self },
            RequestModel::ReadAdminData => match self.admin {
                Some(blob) => Card { admin_draft: blob, ..self },
                None => self,
            },
            RequestModel::NewAdminData => Card { admin_draft: Blob::blank(), ..self },
            RequestModel::SetAdminItem(tag, value) => Card {
                admin_draft: self.admin_draft.with_item(tag, value),
                ..self
            },
            RequestModel::WriteAdminData => Card { admin: Some(self.admin_draft), ..self },
            RequestModel::ReadProtectedData => match self.protected {
                Some(blob) => Card { protected_draft: blob, ..self },
                None => self,
            },
            RequestModel::NewProtectedData => Card { protected_draft: Blob::blank(), ..self },
            RequestModel::SetProtectedItem(tag, value) => Card {
                protected_draft: self.protected_draft.with_item(tag, value),
                ..self
            },
            RequestModel::WriteProtectedData => Card {
                protected: Some(self.protected_draft),
                ..self
            },
            _ => self,
        }
    }

    /// How an operation goes.
    pub open spec fn reply(self, request: RequestModel) -> Result<Seq<u8>, Error> {
        match request {
            RequestModel::ReadAdminData => if self.admin is Some {
                Ok(seq![])
            } else {
                Err(self.absent)
            },
            RequestModel::GetAdminItem(tag) => if self.admin_draft.items.dom().contains(tag) {
                Ok(self.admin_draft.items[tag])
            } else {
                Err(self.absent)
            },
            RequestModel::ReadProtectedData => if self.protected is Some {
                Ok(seq![])
            } else {
                Err(self.absent)
            },
            RequestModel::GetProtectedItem(tag) => if self.protected_draft.items.dom().contains(tag) {
                Ok(self.protected_draft.items[tag])
            } else {
                Err(self.absent)
            },
            _ => Ok(seq![]),
        }
    }

    /// What the device answers when it is asked for the metadata of its management slot.
    pub open spec fn metadata(self) -> Result<ManagementAlgorithmId, Error> {
        if self.has_metadata {
            Ok(
                match self.key.algorithm {
                    MgmAlgorithmId::ThreeDes => ManagementAlgorithmId::ThreeDes,
                    MgmAlgorithmId::Aes128 => ManagementAlgorithmId::Aes128,
                    MgmAlgorithmId::Aes192 => ManagementAlgorithmId::Aes192,
                    MgmAlgorithmId::Aes256 => ManagementAlgorithmId::Aes256,
                },
            )
        } else {
            Err(Error::NotSupported)
        }
    }

    /// The device after a change has run to its end on it, and how the change went.
    pub open spec fn changed(self, update: UpdateModel) -> (Self, Result<(), Error>)
        decreases update.remaining(),
    {
        match update.step() {
            StepModel::Return(r) => (self, r),
            StepModel::Ask(request) => self.after(request).changed(
                update.next(self.reply(request)),
            ),
        }
    }

    /// What a lookup finds that runs to its end on this device.
    pub open spec fn found(self, lookup: LookupModel) -> Result<KeyModel, Error>
        decreases lookup.remaining(),
    {
        match lookup.step() {
            LookupStepModel::Return(r) => r,
            LookupStepModel::AskAlgorithm => self.found(lookup.next_algorithm(self.metadata())),
            LookupStepModel::Ask(request) => self.after(request).found(
                lookup.next(self.reply(request)),
            ),
        }
    }

    /// The first admin flags, if there is an item for them of the right size.
    pub open spec fn flags(self) -> Option<u8> {
        match self.admin {
            Some(blob) => flags_of(blob.items),
            None => None,
        }
    }

    /// There is a salt of a derived management key.
    pub open spec fn has_salt(self) -> bool {
        self.admin matches Some(blob) && blob.items.dom().contains(AdminTag::Salt)
    }

    /// There is a protected management key.
    pub open spec fn has_protected_key(self) -> bool {
        self.protected matches Some(blob) && blob.items.dom().contains(ProtectedTag::Mgm)
    }
}

/// One operation of a change.
proof fn lemma_changed_step(card: Card, update: UpdateModel, request: RequestModel)
    requires
        update.step() == StepModel::Ask(request),
    ensures
        card.changed(update) == card.after(request).changed(update.next(card.reply(request))),
{
}

/// No change alters how operations on something absent fail, nor what the firmware knows of.
proof fn lemma_absent_is_kept(card: Card, update: UpdateModel)
    ensures
        card.changed(update).0.absent == card.absent,
        card.changed(update).0.has_metadata == card.has_metadata,
    decreases update.remaining(),
{
    match update.step() {
        StepModel::Return(r) => {},
        StepModel::Ask(request) => lemma_absent_is_kept(
            card.after(request),
            update.next(card.reply(request)),
        ),
    }
}

/// The last part of a manual change, which clears the protected data.
proof fn lemma_manual_protected_part(card: Card, key: KeyModel)
    ensures
        ({
            let (after, r) = card.changed(UpdateModel { key, stage: Stage::ManualReadProtected });
            &&& r == Ok::<(), Error>(())
            &&& after.key == card.key
            &&& after.require_touch == card.require_touch
            &&& after.admin == card.admin
            &&& after.protected == match card.protected {
                Some(blob) => Some(
                    Blob { items: blob.items.remove(ProtectedTag::Mgm), others: blob.others },
                ),
                None => None,
            }
        }),
{
    let u0 = UpdateModel { key, stage: Stage::ManualReadProtected };
    lemma_changed_step(card, u0, RequestModel::ReadProtectedData);
    if card.protected is Some {
        let c1 = card.after(RequestModel::ReadProtectedData);
        let u1 = UpdateModel { key, stage: Stage::ManualClearMgm };
        let clear = RequestModel::SetProtectedItem(ProtectedTag::Mgm, seq![]);
        lemma_changed_step(c1, u1, clear);
        let u2 = UpdateModel { key, stage: Stage::ManualWriteProtected };
        lemma_changed_step(c1.after(clear), u2, RequestModel::WriteProtectedData);
    }
}

/// The part of a manual change after the flags are done with.
proof fn lemma_manual_salt_part(card: Card, key: KeyModel)
    ensures
        ({
            let (after, r) = card.changed(UpdateModel { key, stage: Stage::ManualClearSalt });
            &&& r == Ok::<(), Error>(())
            &&& after.key == card.key
            &&& after.require_touch == card.require_touch
            &&& after.admin == Some(
                Blob {
                    items: card.admin_draft.items.remove(AdminTag::Salt),
                    others: card.admin_draft.others,
                },
            )
            &&& after.protected == match card.protected {
                Some(blob) => Some(
                    Blob { items: blob.items.remove(ProtectedTag::Mgm), others: blob.others },
                ),
                None => None,
            }
        }),
{
    let u0 = UpdateModel { key, stage: Stage::ManualClearSalt };
    let clear = RequestModel::SetAdminItem(AdminTag::Salt, seq![]);
    lemma_changed_step(card, u0, clear);
    let c1 = card.after(clear);
    let u1 = UpdateModel { key, stage: Stage::ManualWriteAdmin };
    lemma_changed_step(c1, u1, RequestModel::WriteAdminData);
    lemma_manual_protected_part(c1.after(RequestModel::WriteAdminData), key);
}

/// A manual change sets the key and wipes any metadata related to derived and PIN-protected
/// management keys: the salt, the protected key, and the protected bit of the flags, of which it
/// leaves the other bits. It leaves the items under other tags as they are, and creates no blob.
pub proof fn law_manual_change_wipes_metadata(card: Card, key: KeyModel, require_touch: bool)
    ensures
        ({
            let (after, r) = card.changed(
                UpdateModel::start(key, Keeping::Manual { require_touch }),
            );
            &&& r == Ok::<(), Error>(())
            &&& after.key == key
            &&& after.require_touch == require_touch
            &&& after.admin == match card.admin {
                Some(blob) => Some(
                    Blob { items: manual_admin(blob.items), others: blob.others },
                ),
                None => None,
            }
            &&& after.protected == match card.protected {
                Some(blob) => Some(
                    Blob { items: blob.items.remove(ProtectedTag::Mgm), others: blob.others },
                ),
                None => None,
            }
            &&& !after.has_salt()
            &&& !after.has_protected_key()
            &&& after.flags() == match card.flags() {
                Some(flags) => Some(flags & !ADMIN_FLAGS_1_PROTECTED_MGM),
                None => None,
            }
        }),
{
    let keeping = Keeping::Manual { require_touch };
    let set_key = RequestModel::SetMgmKey { key, require_touch };
    lemma_changed_step(card, UpdateModel::start(key, keeping), RequestModel::BeginTransaction);
    let u1 = UpdateModel { key, stage: Stage::SetKey(keeping) };
    lemma_changed_step(card, u1, set_key);
    let c2 = card.after(set_key);
    let u2 = UpdateModel { key, stage: Stage::ManualReadAdmin };
    lemma_changed_step(c2, u2, RequestModel::ReadAdminData);
    if card.admin is Some {
        let c3 = c2.after(RequestModel::ReadAdminData);
        let get_flags = RequestModel::GetAdminItem(AdminTag::Flags1);
        let u3 = UpdateModel { key, stage: Stage::ManualGetFlags };
        lemma_changed_step(c3, u3, get_flags);
        match card.flags() {
            Some(flags) => {
                let cleared = flags & !ADMIN_FLAGS_1_PROTECTED_MGM;
                let set_flags = RequestModel::SetAdminItem(AdminTag::Flags1, seq![cleared]);
                let u4 = UpdateModel { key, stage: Stage::ManualSetFlags(cleared) };
                lemma_changed_step(c3, u4, set_flags);
                lemma_manual_salt_part(c3.after(set_flags), key);
            },
            None => {
                lemma_manual_salt_part(c3, key);
            },
        }
    } else {
        lemma_manual_protected_part(c2, key);
    }
}

/// A manual change after a manual change leaves the metadata as they are.
pub proof fn law_repeated_manual_change_keeps_metadata(
    card: Card,
    key: KeyModel,
    require_touch: bool,
    other_key: KeyModel,
    other_touch: bool,
)
    ensures
        ({
            let once = card.changed(
                UpdateModel::start(key, Keeping::Manual { require_touch }),
            ).0;
            let twice = once.changed(
                UpdateModel::start(other_key, Keeping::Manual { require_touch: other_touch }),
            ).0;
            &&& twice.admin == once.admin
            &&& twice.protected == once.protected
        }),
{
    let once = card.changed(UpdateModel::start(key, Keeping::Manual { require_touch })).0;
    law_manual_change_wipes_metadata(card, key, require_touch);
    law_manual_change_wipes_metadata(once, other_key, other_touch);
    match card.admin {
        Some(blob) => {
            let items = blob.items;
            match flags_of(items) {
                Some(flags) => {
                    assert((flags & !0x02u8) & !0x02u8 == flags & !0x02u8) by (bit_vector);
                },
                None => {},
            }
            assert(manual_admin(manual_admin(items)) =~= manual_admin(items));
        },
        None => {},
    }
    match card.protected {
        Some(blob) => {
            let cleared = blob.items.remove(ProtectedTag::Mgm);
            assert(cleared.remove(ProtectedTag::Mgm) =~= cleared);
        },
        None => {},
    }
}

/// A reset leaves the device with the default key for its firmware version, which is not weak and
/// can be used without a touch, and with no metadata related to other ways to keep a key.
pub proof fn law_reset_sets_default_key(card: Card, version: Version)
    ensures
        ({
            let key = KeyModel {
                algorithm: version.default_algorithm_spec(),
                bytes: DEFAULT_MGM_KEY@,
            };
            let (after, r) = card.changed(
                UpdateModel::start(key, Keeping::Manual { require_touch: false }),
            );
            &&& r == Ok::<(), Error>(())
            &&& after.key == key
            &&& !after.key.is_weak()
            &&& !after.require_touch
            &&& !after.has_salt()
            &&& !after.has_protected_key()
        }),
{
    let key = KeyModel { algorithm: version.default_algorithm_spec(), bytes: DEFAULT_MGM_KEY@ };
    law_manual_change_wipes_metadata(card, key, false);
    crate::key::law_default_key_is_not_weak(version.default_algorithm_spec());
}

/// After a manual change there is no derived and no protected management key to be found.
pub proof fn law_manual_change_leaves_nothing_to_find(
    card: Card,
    key: KeyModel,
    require_touch: bool,
    pin: Seq<u8>,
)
    ensures
        ({
            let after = card.changed(
                UpdateModel::start(key, Keeping::Manual { require_touch }),
            ).0;
            &&& after.found(LookupModel::DerivedBegin(pin)) == Err::<KeyModel, Error>(card.absent)
            &&& after.found(LookupModel::ProtectedBegin) == Err::<KeyModel, Error>(card.absent)
        }),
{
    let update = UpdateModel::start(key, Keeping::Manual { require_touch });
    law_manual_change_wipes_metadata(card, key, require_touch);
    lemma_absent_is_kept(card, update);
    reveal_with_fuel(Card::found, 6);
}

/// The last part of a protected change, which stores the flags.
proof fn lemma_protected_flags_part(card: Card, key: KeyModel, flags: u8)
    ensures
        ({
            let (after, r) = card.changed(
                UpdateModel { key, stage: Stage::ProtectedSetFlags(flags) },
            );
            &&& r == Ok::<(), Error>(())
            &&& after.key == card.key
            &&& after.require_touch == card.require_touch
            &&& after.protected == card.protected
            &&& after.admin == Some(
                Blob {
                    items: card.admin_draft.items.insert(AdminTag::Flags1, seq![flags]),
                    others: card.admin_draft.others,
                },
            )
        }),
{
    let u0 = UpdateModel { key, stage: Stage::ProtectedSetFlags(flags) };
    let set_flags = RequestModel::SetAdminItem(AdminTag::Flags1, seq![flags]);
    lemma_changed_step(card, u0, set_flags);
    let u1 = UpdateModel { key, stage: Stage::ProtectedWriteAdmin };
    lemma_changed_step(card.after(set_flags), u1, RequestModel::WriteAdminData);
}

/// The part of a protected change that deals with the admin data.
proof fn lemma_protected_admin_part(card: Card, key: KeyModel)
    ensures
        ({
            let (after, r) = card.changed(UpdateModel { key, stage: Stage::ProtectedReadAdmin });
            &&& r == Ok::<(), Error>(())
            &&& after.key == card.key
            &&& after.require_touch == card.require_touch
            &&& after.protected == card.protected
            &&& after.admin == Some(
                Blob {
                    items: protected_admin(or_blank(card.admin).items),
                    others: or_blank(card.admin).others,
                },
            )
        }),
{
    let u0 = UpdateModel { key, stage: Stage::ProtectedReadAdmin };
    lemma_changed_step(card, u0, RequestModel::ReadAdminData);
    if card.admin is Some {
        let c1 = card.after(RequestModel::ReadAdminData);
        let u1 = UpdateModel { key, stage: Stage::ProtectedGetFlags };
        lemma_changed_step(c1, u1, RequestModel::GetAdminItem(AdminTag::Flags1));
        let flags: u8 = match card.flags() {
            Some(flags) => flags,
            None => 0,
        };
        let clear = RequestModel::SetAdminItem(AdminTag::Salt, seq![]);
        let u2 = UpdateModel { key, stage: Stage::ProtectedClearSalt(flags) };
        lemma_changed_step(c1, u2, clear);
        lemma_protected_flags_part(c1.after(clear), key, flags | ADMIN_FLAGS_1_PROTECTED_MGM);
        assert(0u8 | 0x02u8 == 0x02u8) by (bit_vector);
    } else {
        let blank = Map::<AdminTag, Seq<u8>>::empty();
        assert(blank.remove(AdminTag::Salt) =~= blank);
        let u1 = UpdateModel { key, stage: Stage::ProtectedNewAdmin };
        lemma_changed_step(card, u1, RequestModel::NewAdminData);
        lemma_protected_flags_part(
            card.after(RequestModel::NewAdminData),
            key,
            ADMIN_FLAGS_1_PROTECTED_MGM,
        );
    }
}

/// The part of a protected change that deals with the protected data and what follows.
proof fn lemma_protected_mgm_part(card: Card, key: KeyModel)
    requires
        key.well_formed(),
    ensures
        ({
            let (after, r) = card.changed(UpdateModel { key, stage: Stage::ProtectedSetMgm });
            &&& r == Ok::<(), Error>(())
            &&& after.key == card.key
            &&& after.require_touch == card.require_touch
            &&& after.protected == Some(
                Blob {
                    items: card.protected_draft.items.insert(ProtectedTag::Mgm, key.bytes),
                    others: card.protected_draft.others,
                },
            )
            &&& after.admin == Some(
                Blob {
                    items: protected_admin(or_blank(card.admin).items),
                    others: or_blank(card.admin).others,
                },
            )
        }),
{
    let set_mgm = RequestModel::SetProtectedItem(ProtectedTag::Mgm, key.bytes);
    let u0 = UpdateModel { key, stage: Stage::ProtectedSetMgm };
    lemma_changed_step(card, u0, set_mgm);
    let c1 = card.after(set_mgm);
    let u1 = UpdateModel { key, stage: Stage::ProtectedWrite };
    lemma_changed_step(c1, u1, RequestModel::WriteProtectedData);
    lemma_protected_admin_part(c1.after(RequestModel::WriteProtectedData), key);
}

/// A protected change sets the key, to be used without a touch, keeps it in the protected data,
/// removes the salt, and sets the protected bit of the flags, of which it leaves the other bits.
/// It leaves the items under other tags as they are; a blob that it creates has none.
pub proof fn law_protected_change_keeps_key(card: Card, key: KeyModel)
    requires
        key.well_formed(),
    ensures
        ({
            let (after, r) = card.changed(UpdateModel::start(key, Keeping::Protected));
            &&& r == Ok::<(), Error>(())
            &&& after.key == key
            &&& !after.require_touch
            &&& after.admin == Some(
                Blob {
                    items: protected_admin(or_blank(card.admin).items),
                    others: or_blank(card.admin).others,
                },
            )
            &&& after.protected == Some(
                Blob {
                    items: or_blank(card.protected).items.insert(ProtectedTag::Mgm, key.bytes),
                    others: or_blank(card.protected).others,
                },
            )
            &&& !after.has_salt()
            &&& after.has_protected_key()
            &&& after.protected.unwrap().items[ProtectedTag::Mgm] == key.bytes
            &&& card.admin is None ==> after.admin.unwrap().others == Map::<u8, Seq<u8>>::empty()
            &&& card.protected is None ==> after.protected.unwrap().others == Map::<
                u8,
                Seq<u8>,
            >::empty()
            &&& after.flags() == match card.flags() {
                Some(flags) => Some(flags | ADMIN_FLAGS_1_PROTECTED_MGM),
                None => Some(ADMIN_FLAGS_1_PROTECTED_MGM),
            }
        }),
{
    let set_key = RequestModel::SetMgmKey { key, require_touch: false };
    let u0 = UpdateModel::start(key, Keeping::Protected);
    lemma_changed_step(card, u0, RequestModel::BeginTransaction);
    let u1 = UpdateModel { key, stage: Stage::SetKey(Keeping::Protected) };
    lemma_changed_step(card, u1, set_key);
    let c2 = card.after(set_key);
    let u2 = UpdateModel { key, stage: Stage::ProtectedRead };
    lemma_changed_step(c2, u2, RequestModel::ReadProtectedData);
    if card.protected is Some {
        lemma_protected_mgm_part(c2.after(RequestModel::ReadProtectedData), key);
    } else {
        let u3 = UpdateModel { key, stage: Stage::ProtectedNew };
        lemma_changed_step(c2, u3, RequestModel::NewProtectedData);
        lemma_protected_mgm_part(c2.after(RequestModel::NewProtectedData), key);
    }
}

/// A protected change of the same key after a protected change leaves the metadata as they are.
pub proof fn law_repeated_protected_change_keeps_metadata(card: Card, key: KeyModel)
    requires
        key.well_formed(),
    ensures
        ({
            let once = card.changed(UpdateModel::start(key, Keeping::Protected)).0;
            let twice = once.changed(UpdateModel::start(key, Keeping::Protected)).0;
            &&& twice.admin == once.admin
            &&& twice.protected == once.protected
        }),
{
    let once = card.changed(UpdateModel::start(key, Keeping::Protected)).0;
    law_protected_change_keeps_key(card, key);
    law_protected_change_keeps_key(once, key);
    let items = once.admin.unwrap().items;
    let flags = once.flags().unwrap();
    let before: u8 = match card.flags() {
        Some(flags) => flags,
        None => 0,
    };
    assert(0u8 | 0x02u8 == 0x02u8) by (bit_vector);
    assert((before | 0x02u8) | 0x02u8 == before | 0x02u8) by (bit_vector);
    assert(items[AdminTag::Flags1] =~= seq![flags]);
    assert(protected_admin(items) =~= items);
    let kept = once.protected.unwrap().items;
    assert(kept.insert(ProtectedTag::Mgm, key.bytes) =~= kept);
}

/// The key that a protected change keeps is the one that a lookup finds. A device that does not
/// know of metadata has 3DES keys only.
pub proof fn law_protected_key_is_found(card: Card, key: KeyModel)
    requires
        key.well_formed(),
        !key.is_weak(),
        card.has_metadata || key.algorithm == MgmAlgorithmId::ThreeDes,
    ensures
        card.changed(UpdateModel::start(key, Keeping::Protected)).0.found(
            LookupModel::ProtectedBegin,
        ) == Ok::<KeyModel, Error>(key),
{
    law_protected_change_keeps_key(card, key);
    lemma_absent_is_kept(card, UpdateModel::start(key, Keeping::Protected));
    reveal_with_fuel(Card::found, 6);
}

/// On a device that holds a salt of 16 bytes, the derived key is the 3DES key that PBKDF2 makes of
/// the whole PIN and the salt in 10000 iterations, unless it is weak. A salt of another size gives
/// no key.
pub proof fn law_derived_key_is_found(card: Card, pin: Seq<u8>)
    requires
        card.has_salt(),
    ensures
        ({
            let r = card.found(LookupModel::DerivedBegin(pin));
            let salt = card.admin.unwrap().items[AdminTag::Salt];
            let bytes = crate::primitives::pbkdf2_hmac_sha1(pin, salt, 10000, 24);
            &&& salt.len() != 16 ==> r == Err::<KeyModel, Error>(Error::GenericError)
            &&& r matches Ok(key) ==> {
                &&& salt.len() == 16
                &&& key.algorithm == MgmAlgorithmId::ThreeDes
                &&& key.bytes == bytes
            }
            &&& r == Err::<KeyModel, Error>(Error::KeyError) ==> crate::weak::is_weak_tdes(bytes)
            &&& salt.len() == 16 && bytes.len() == 24 ==> (r is Err <==> crate::weak::is_weak_tdes(
                bytes,
            ))
        }),
{
    reveal_with_fuel(Card::found, 4);
}

} // verus!
