//! What changes and lookups of the management key come to on a device on which operations fail.

use crate::algorithm::{ManagementAlgorithmId, MgmAlgorithmId};
use crate::card::{Blob, Card};
use crate::error::Error;
use crate::key::KeyModel;
use crate::lookup::{LookupModel, LookupStepModel};
use crate::request::{AdminTag, ProtectedTag, RequestModel};
use crate::update::{Keeping, Stage, StepModel, UpdateModel};
use vstd::prelude::*;

verus! {

/// A device on which operations can fail. One that fails has no effect.
pub struct Faulty {
    /// The device if no operation failed
    pub card: Card,

    /// Which operations fail, and why
    pub fails: spec_fn(RequestModel) -> Option<Error>,

    /// The bytes that come with the success of an operation that looks no item up
    pub noise: Seq<u8>,

    /// What the device answers when it is asked for the metadata of its management slot
    pub metadata: Result<ManagementAlgorithmId, Error>,
}

impl Faulty {
    /// The operation does not fail of itself. It can still be one on something absent.
    pub open spec fn works(self, request: RequestModel) -> bool {
        (self.fails)(request) is None
    }

    /// The device after an operation.
    pub open spec fn after(self, request: RequestModel) -> Self {
        if self.works(request) {
            Faulty { card: self.card.after(request), ..self }
        } else {
            self
        }
    }

    /// How an operation goes.
    pub open spec fn reply(self, request: RequestModel) -> Result<Seq<u8>, Error> {
        match ((self.fails)(request), self.card.reply(request)) {
            (Some(e), _) => Err(e),
            (None, Err(e)) => Err(e),
            (None, Ok(item)) => if request is GetAdminItem || request is GetProtectedItem {
                Ok(item)
            } else {
                Ok(self.noise)
            },
        }
    }

    /// The device after a change has run to its end on it, and how the change went.
    pub open spec fn changed(self, update: UpdateModel) -> (Self, Result<(), Error>)
        decreases update.remaining(),
    {
        match update.step() {
            StepModel::Return(r) => (self, r),
            StepModel::Ask(request) => self.after(request).changed(
                update.next(self.reply(request)),
            ),
        }
    }

    /// What a lookup finds that runs to its end on this device.
    pub open spec fn found(self, lookup: LookupModel) -> Result<KeyModel, Error>
        decreases lookup.remaining(),
    {
        match lookup.step() {
            LookupStepModel::Return(r) => r,
            LookupStepModel::AskAlgorithm => self.found(lookup.next_algorithm(self.metadata)),
            LookupStepModel::Ask(request) => self.after(request).found(
                lookup.next(self.reply(request)),
            ),
        }
    }

    /// The admin data can be read, because there are some and reading them does not fail.
    pub open spec fn has_admin(self) -> bool {
        self.card.admin is Some && self.works(RequestModel::ReadAdminData)
    }

    /// The protected data can be read, because there are some and reading them does not fail.
    pub open spec fn has_protected(self) -> bool {
        self.card.protected is Some && self.works(RequestModel::ReadProtectedData)
    }
}

/// One operation of a change.
proof fn lemma_step(d: Faulty, update: UpdateModel, request: RequestModel)
    requires
        update.step() == StepModel::Ask(request),
    ensures
        d.changed(update) == d.after(request).changed(update.next(d.reply(request))),
{
}

/// Only the operation that is for it changes the key, the admin data or the protected data of a
/// device.
pub proof fn law_only_writes_change_device(card: Card, request: RequestModel)
    ensures
        ({
            let after = card.after(request);
            &&& !(request is SetMgmKey) ==> after.key == card.key && after.require_touch
                == card.require_touch
            &&& !(request is WriteAdminData) ==> after.admin == card.admin
            &&& !(request is WriteProtectedData) ==> after.protected == card.protected
            &&& request is WriteAdminData ==> after.admin == Some(card.admin_draft)
            &&& request is WriteProtectedData ==> after.protected == Some(card.protected_draft)
        }),
{
}

/// The last part of a manual change, which clears the protected data.
proof fn lemma_manual_protected_part(d: Faulty, key: KeyModel)
    ensures
        ({
            let (after, r) = d.changed(UpdateModel { key, stage: Stage::ManualReadProtected });
            &&& r == Ok::<(), Error>(())
            &&& after.card.key == d.card.key
            &&& after.card.require_touch == d.card.require_touch
            &&& after.card.admin == d.card.admin
            &&& after.card.protected == if d.has_protected() && d.works(
                RequestModel::SetProtectedItem(ProtectedTag::Mgm, seq![]),
            ) && d.works(RequestModel::WriteProtectedData) {
                let blob = d.card.protected.unwrap();
                Some(Blob { items: blob.items.remove(ProtectedTag::Mgm), others: blob.others })
            } else {
                d.card.protected
            }
        }),
{
    let u0 = UpdateModel { key, stage: Stage::ManualReadProtected };
    lemma_step(d, u0, RequestModel::ReadProtectedData);
    if d.has_protected() {
        let d1 = d.after(RequestModel::ReadProtectedData);
        let u1 = UpdateModel { key, stage: Stage::ManualClearMgm };
        let clear = RequestModel::SetProtectedItem(ProtectedTag::Mgm, seq![]);
        lemma_step(d1, u1, clear);
        if d.works(clear) {
            let u2 = UpdateModel { key, stage: Stage::ManualWriteProtected };
            lemma_step(d1.after(clear), u2, RequestModel::WriteProtectedData);
        }
    }
}

/// The part of a manual change after the flags are done with.
proof fn lemma_manual_salt_part(d: Faulty, key: KeyModel)
    ensures
        ({
            let (after, r) = d.changed(UpdateModel { key, stage: Stage::ManualClearSalt });
            let clear = RequestModel::SetAdminItem(AdminTag::Salt, seq![]);
            &&& r == Ok::<(), Error>(())
            &&& after.card.key == d.card.key
            &&& after.card.require_touch == d.card.require_touch
            &&& after.card.admin == if d.works(RequestModel::WriteAdminData) {
                Some(
                    Blob {
                        items: if d.works(clear) {
                            d.card.admin_draft.items.remove(AdminTag::Salt)
                        } else {
                            d.card.admin_draft.items
                        },
                        others: d.card.admin_draft.others,
                    },
                )
            } else {
                d.card.admin
            }
            &&& after.card.protected == if d.has_protected() && d.works(
                RequestModel::SetProtectedItem(ProtectedTag::Mgm, seq![]),
            ) && d.works(RequestModel::WriteProtectedData) {
                let blob = d.card.protected.unwrap();
                Some(Blob { items: blob.items.remove(ProtectedTag::Mgm), others: blob.others })
            } else {
                d.card.protected
            }
        }),
{
    let u0 = UpdateModel { key, stage: Stage::ManualClearSalt };
    let clear = RequestModel::SetAdminItem(AdminTag::Salt, seq![]);
    lemma_step(d, u0, clear);
    let d1 = d.after(clear);
    let u1 = UpdateModel { key, stage: Stage::ManualWriteAdmin };
    lemma_step(d1, u1, RequestModel::WriteAdminData);
    lemma_manual_protected_part(d1.after(RequestModel::WriteAdminData), key);
}

/// What a manual change does to the device, whichever operations fail.
///
/// If the transaction cannot be begun or the key cannot be set, the change fails with that error
/// and the device stays as it is. Otherwise it succeeds and sets the key. It writes the admin data
/// if they can be read and written, without the salt if that can be removed, and with bit `02` of
/// the flags clear if they are one byte and can be looked up and set. It writes the protected data
/// without the protected key if they can be read, the key removed and the data written. No failure
/// of one of these keeps it from the others.
pub proof fn law_manual_change_under_failures(d: Faulty, key: KeyModel, require_touch: bool)
    ensures
        ({
            let (after, r) = d.changed(UpdateModel::start(key, Keeping::Manual { require_touch }));
            let set_key = RequestModel::SetMgmKey { key, require_touch };
            match ((d.fails)(RequestModel::BeginTransaction), (d.fails)(set_key)) {
                (Some(e), _) => after == d && r == Err::<(), Error>(e),
                (None, Some(e)) => after.card == d.card && r == Err::<(), Error>(e),
                (None, None) => {
                    &&& r == Ok::<(), Error>(())
                    &&& after.card.key == key
                    &&& after.card.require_touch == require_touch
                    &&& after.card.admin == if d.has_admin() && d.works(
                        RequestModel::WriteAdminData,
                    ) {
                        let blob = d.card.admin.unwrap();
                        let item = blob.items[AdminTag::Flags1];
                        let cleared = seq![item[0] & !0x02u8];
                        let flagged = if blob.items.dom().contains(AdminTag::Flags1) && item.len()
                            == 1 && d.works(RequestModel::GetAdminItem(AdminTag::Flags1))
                            && d.works(RequestModel::SetAdminItem(AdminTag::Flags1, cleared)) {
                            blob.items.insert(AdminTag::Flags1, cleared)
                        } else {
                            blob.items
                        };
                        Some(
                            Blob {
                                items: if d.works(
                                    RequestModel::SetAdminItem(AdminTag::Salt, seq![]),
                                ) {
                                    flagged.remove(AdminTag::Salt)
                                } else {
                                    flagged
                                },
                                others: blob.others,
                            },
                        )
                    } else {
                        d.card.admin
                    }
                    &&& after.card.protected == if d.has_protected() && d.works(
                        RequestModel::SetProtectedItem(ProtectedTag::Mgm, seq![]),
                    ) && d.works(RequestModel::WriteProtectedData) {
                        let blob = d.card.protected.unwrap();
                        Some(
                            Blob {
                                items: blob.items.remove(ProtectedTag::Mgm),
                                others: blob.others,
                            },
                        )
                    } else {
                        d.card.protected
                    }
                },
            }
        }),
{
    let keeping = Keeping::Manual { require_touch };
    let set_key = RequestModel::SetMgmKey { key, require_touch };
    lemma_step(d, UpdateModel::start(key, keeping), RequestModel::BeginTransaction);
    if d.works(RequestModel::BeginTransaction) {
        let u1 = UpdateModel { key, stage: Stage::SetKey(keeping) };
        lemma_step(d, u1, set_key);
        if d.works(set_key) {
            let d2 = d.after(set_key);
            let u2 = UpdateModel { key, stage: Stage::ManualReadAdmin };
            lemma_step(d2, u2, RequestModel::ReadAdminData);
            if d.has_admin() {
                let d3 = d2.after(RequestModel::ReadAdminData);
                let get_flags = RequestModel::GetAdminItem(AdminTag::Flags1);
                let u3 = UpdateModel { key, stage: Stage::ManualGetFlags };
                lemma_step(d3, u3, get_flags);
                let items = d.card.admin.unwrap().items;
                let item = items[AdminTag::Flags1];
                if items.dom().contains(AdminTag::Flags1) && item.len() == 1 && d.works(get_flags) {
                    let cleared = item[0] & !0x02u8;
                    let set_flags = RequestModel::SetAdminItem(AdminTag::Flags1, seq![cleared]);
                    let u4 = UpdateModel { key, stage: Stage::ManualSetFlags(cleared) };
                    lemma_step(d3, u4, set_flags);
                    lemma_manual_salt_part(d3.after(set_flags), key);
                } else {
                    lemma_manual_salt_part(d3, key);
                }
            } else {
                lemma_manual_protected_part(d2, key);
            }
        }
    }
}

/// The last part of a protected change, which stores the flags.
proof fn lemma_protected_flags_part(d: Faulty, key: KeyModel, flags: u8)
    ensures
        ({
            let (after, r) = d.changed(UpdateModel { key, stage: Stage::ProtectedSetFlags(flags) });
            let set_flags = RequestModel::SetAdminItem(AdminTag::Flags1, seq![flags]);
            &&& r == Ok::<(), Error>(())
            &&& after.card.key == d.card.key
            &&& after.card.require_touch == d.card.require_touch
            &&& after.card.protected == d.card.protected
            &&& after.card.admin == if d.works(set_flags) && d.works(
                RequestModel::WriteAdminData,
            ) {
                Some(
                    Blob {
                        items: d.card.admin_draft.items.insert(AdminTag::Flags1, seq![flags]),
                        others: d.card.admin_draft.others,
                    },
                )
            } else {
                d.card.admin
            }
        }),
{
    let u0 = UpdateModel { key, stage: Stage::ProtectedSetFlags(flags) };
    let set_flags = RequestModel::SetAdminItem(AdminTag::Flags1, seq![flags]);
    lemma_step(d, u0, set_flags);
    if d.works(set_flags) {
        let u1 = UpdateModel { key, stage: Stage::ProtectedWriteAdmin };
        lemma_step(d.after(set_flags), u1, RequestModel::WriteAdminData);
    }
}

/// The admin data that a protected change writes, if it can: those that it reads, without the salt
/// if that can be removed, or blank ones, and in either case with bit `02` of the flags set. The
/// other bits are those of the flags that it looks up, and clear if these are not one byte.
spec fn protected_admin_under_failures(d: Faulty) -> Blob<AdminTag> {
    if d.has_admin() {
        let blob = d.card.admin.unwrap();
        let item = blob.items[AdminTag::Flags1];
        let flags: u8 = if blob.items.dom().contains(AdminTag::Flags1) && item.len() == 1 && d.works(
            RequestModel::GetAdminItem(AdminTag::Flags1),
        ) {
            item[0]
        } else {
            0
        };
        let kept = if d.works(RequestModel::SetAdminItem(AdminTag::Salt, seq![])) {
            blob.items.remove(AdminTag::Salt)
        } else {
            blob.items
        };
        Blob {
            items: kept.insert(AdminTag::Flags1, seq![flags | 0x02u8]),
            others: blob.others,
        }
    } else {
        Blob {
            items: Map::empty().insert(AdminTag::Flags1, seq![0x02u8]),
            others: Map::empty(),
        }
    }
}

/// The part of a protected change that deals with the admin data.
proof fn lemma_protected_admin_part(d: Faulty, key: KeyModel)
    requires
        d.works(RequestModel::NewAdminData),
    ensures
        ({
            let (after, r) = d.changed(UpdateModel { key, stage: Stage::ProtectedReadAdmin });
            let written = protected_admin_under_failures(d);
            &&& r == Ok::<(), Error>(())
            &&& after.card.key == d.card.key
            &&& after.card.require_touch == d.card.require_touch
            &&& after.card.protected == d.card.protected
            &&& after.card.admin == if d.works(
                RequestModel::SetAdminItem(AdminTag::Flags1, written.items[AdminTag::Flags1]),
            ) && d.works(RequestModel::WriteAdminData) {
                Some(written)
            } else {
                d.card.admin
            }
        }),
{
    let u0 = UpdateModel { key, stage: Stage::ProtectedReadAdmin };
    lemma_step(d, u0, RequestModel::ReadAdminData);
    if d.has_admin() {
        let get_flags = RequestModel::GetAdminItem(AdminTag::Flags1);
        let d1 = d.after(RequestModel::ReadAdminData);
        let u1 = UpdateModel { key, stage: Stage::ProtectedGetFlags };
        lemma_step(d1, u1, get_flags);
        let items = d.card.admin.unwrap().items;
        let item = items[AdminTag::Flags1];
        let flags: u8 = if items.dom().contains(AdminTag::Flags1) && item.len() == 1 && d.works(
            get_flags,
        ) {
            item[0]
        } else {
            0
        };
        let clear = RequestModel::SetAdminItem(AdminTag::Salt, seq![]);
        let u2 = UpdateModel { key, stage: Stage::ProtectedClearSalt(flags) };
        lemma_step(d1, u2, clear);
        lemma_protected_flags_part(d1.after(clear), key, flags | 0x02u8);
    } else {
        let u1 = UpdateModel { key, stage: Stage::ProtectedNewAdmin };
        lemma_step(d, u1, RequestModel::NewAdminData);
        lemma_protected_flags_part(d.after(RequestModel::NewAdminData), key, 0x02);
    }
}

/// The part of a protected change that deals with the protected data and what follows.
proof fn lemma_protected_mgm_part(d: Faulty, key: KeyModel)
    requires
        key.well_formed(),
        d.works(RequestModel::NewAdminData),
    ensures
        ({
            let (after, r) = d.changed(UpdateModel { key, stage: Stage::ProtectedSetMgm });
            let set_mgm = RequestModel::SetProtectedItem(ProtectedTag::Mgm, key.bytes);
            let written = protected_admin_under_failures(d);
            &&& after.card.key == d.card.key
            &&& after.card.require_touch == d.card.require_touch
            &&& match (d.works(set_mgm), (d.fails)(RequestModel::WriteProtectedData)) {
                (true, Some(e)) => {
                    &&& r == Err::<(), Error>(e)
                    &&& after.card.protected == d.card.protected
                    &&& after.card.admin == d.card.admin
                },
                _ => {
                    &&& r == Ok::<(), Error>(())
                    &&& after.card.protected == if d.works(set_mgm) {
                        Some(
                            Blob {
                                items: d.card.protected_draft.items.insert(
                                    ProtectedTag::Mgm,
                                    key.bytes,
                                ),
                                others: d.card.protected_draft.others,
                            },
                        )
                    } else {
                        d.card.protected
                    }
                    &&& after.card.admin == if d.works(
                        RequestModel::SetAdminItem(
                            AdminTag::Flags1,
                            written.items[AdminTag::Flags1],
                        ),
                    ) && d.works(RequestModel::WriteAdminData) {
                        Some(written)
                    } else {
                        d.card.admin
                    }
                },
            }
        }),
{
    let set_mgm = RequestModel::SetProtectedItem(ProtectedTag::Mgm, key.bytes);
    let u0 = UpdateModel { key, stage: Stage::ProtectedSetMgm };
    lemma_step(d, u0, set_mgm);
    if d.works(set_mgm) {
        let d1 = d.after(set_mgm);
        let u1 = UpdateModel { key, stage: Stage::ProtectedWrite };
        lemma_step(d1, u1, RequestModel::WriteProtectedData);
        if d.works(RequestModel::WriteProtectedData) {
            lemma_protected_admin_part(d1.after(RequestModel::WriteProtectedData), key);
        }
    } else {
        lemma_protected_admin_part(d, key);
    }
}

/// What a protected change does to the device, whichever operations fail but the two that take
/// blank metadata.
///
/// If the transaction cannot be begun or the key cannot be set, the change fails with that error
/// and the device stays as it is. Otherwise the key is set, to be used without a touch. If the key
/// can be put in the protected data but these cannot be written, the change fails with that error,
/// and the metadata stay as they are. Otherwise it succeeds. It writes the protected data that it
/// reads, or blank ones, with the key, if that can be put there. If the flags can be set and the
/// admin data written, it writes the admin data that it reads, without the salt if that can be
/// removed, or blank ones, and in either case with bit `02` of the flags set. The other bits are
/// those of the flags that it looks up, and clear if these are not one byte.
pub proof fn law_protected_change_under_failures(d: Faulty, key: KeyModel)
    requires
        key.well_formed(),
        d.works(RequestModel::NewAdminData),
        d.works(RequestModel::NewProtectedData),
    ensures
        ({
            let (after, r) = d.changed(UpdateModel::start(key, Keeping::Protected));
            let set_key = RequestModel::SetMgmKey { key, require_touch: false };
            let set_mgm = RequestModel::SetProtectedItem(ProtectedTag::Mgm, key.bytes);
            let written = if d.has_admin() {
                let blob = d.card.admin.unwrap();
                let item = blob.items[AdminTag::Flags1];
                let flags: u8 = if blob.items.dom().contains(AdminTag::Flags1) && item.len() == 1
                    && d.works(RequestModel::GetAdminItem(AdminTag::Flags1)) {
                    item[0]
                } else {
                    0
                };
                let kept = if d.works(RequestModel::SetAdminItem(AdminTag::Salt, seq![])) {
                    blob.items.remove(AdminTag::Salt)
                } else {
                    blob.items
                };
                Blob {
                    items: kept.insert(AdminTag::Flags1, seq![flags | 0x02u8]),
                    others: blob.others,
                }
            } else {
                Blob {
                    items: Map::empty().insert(AdminTag::Flags1, seq![0x02u8]),
                    others: Map::empty(),
                }
            };
            match ((d.fails)(RequestModel::BeginTransaction), (d.fails)(set_key)) {
                (Some(e), _) => after == d && r == Err::<(), Error>(e),
                (None, Some(e)) => after.card == d.card && r == Err::<(), Error>(e),
                (None, None) => {
                    &&& after.card.key == key
                    &&& !after.card.require_touch
                    &&& match (d.works(set_mgm), (d.fails)(RequestModel::WriteProtectedData)) {
                        (true, Some(e)) => {
                            &&& r == Err::<(), Error>(e)
                            &&& after.card.protected == d.card.protected
                            &&& after.card.admin == d.card.admin
                        },
                        _ => {
                            &&& r == Ok::<(), Error>(())
                            &&& after.card.protected == if !d.works(set_mgm) {
                                d.card.protected
                            } else if d.has_protected() {
                                let blob = d.card.protected.unwrap();
                                Some(
                                    Blob {
                                        items: blob.items.insert(ProtectedTag::Mgm, key.bytes),
                                        others: blob.others,
                                    },
                                )
                            } else {
                                Some(
                                    Blob {
                                        items: Map::empty().insert(ProtectedTag::Mgm, key.bytes),
                                        others: Map::empty(),
                                    },
                                )
                            }
                            &&& after.card.admin == if d.works(
                                RequestModel::SetAdminItem(
                                    AdminTag::Flags1,
                                    written.items[AdminTag::Flags1],
                                ),
                            ) && d.works(RequestModel::WriteAdminData) {
                                Some(written)
                            } else {
                                d.card.admin
                            }
                        },
                    }
                },
            }
        }),
{
    let set_key = RequestModel::SetMgmKey { key, require_touch: false };
    let u0 = UpdateModel::start(key, Keeping::Protected);
    lemma_step(d, u0, RequestModel::BeginTransaction);
    if d.works(RequestModel::BeginTransaction) {
        let u1 = UpdateModel { key, stage: Stage::SetKey(Keeping::Protected) };
        lemma_step(d, u1, set_key);
        if d.works(set_key) {
            let d2 = d.after(set_key);
            let u2 = UpdateModel { key, stage: Stage::ProtectedRead };
            lemma_step(d2, u2, RequestModel::ReadProtectedData);
            if d.has_protected() {
                lemma_protected_mgm_part(d2.after(RequestModel::ReadProtectedData), key);
            } else {
                let u3 = UpdateModel { key, stage: Stage::ProtectedNew };
                lemma_step(d2, u3, RequestModel::NewProtectedData);
                lemma_protected_mgm_part(d2.after(RequestModel::NewProtectedData), key);
            }
        }
    }
}

/// What a lookup of a derived key finds, whichever operations fail: the first failure, the absence
/// of admin data or of a salt, `Error::GenericError` for a salt that does not have 16 bytes, and
/// otherwise the 3DES key that PBKDF2 makes of the whole PIN and the salt in 10000 iterations,
/// unless it is weak.
pub proof fn law_derived_lookup_under_failures(d: Faulty, pin: Seq<u8>)
    ensures
        ({
            let r = d.found(LookupModel::DerivedBegin(pin));
            let get_salt = RequestModel::GetAdminItem(AdminTag::Salt);
            let absent = Err::<KeyModel, Error>(d.card.absent);
            match (
                (d.fails)(RequestModel::BeginTransaction),
                (d.fails)(RequestModel::ReadAdminData),
                d.card.admin,
                (d.fails)(get_salt),
            ) {
                (Some(e), _, _, _) => r == Err::<KeyModel, Error>(e),
                (None, Some(e), _, _) => r == Err::<KeyModel, Error>(e),
                (None, None, None, _) => r == absent,
                (None, None, Some(_), Some(e)) => r == Err::<KeyModel, Error>(e),
                (None, None, Some(blob), None) => if !blob.items.dom().contains(AdminTag::Salt) {
                    r == absent
                } else {
                    let salt = blob.items[AdminTag::Salt];
                    let bytes = crate::primitives::pbkdf2_hmac_sha1(pin, salt, 10000, 24);
                    &&& salt.len() != 16 ==> r == Err::<KeyModel, Error>(Error::GenericError)
                    &&& salt.len() == 16 && bytes.len() == 24 ==> {
                        r == if crate::weak::is_weak_tdes(bytes) {
                            Err::<KeyModel, Error>(Error::KeyError)
                        } else {
                            Ok::<KeyModel, Error>(
                                KeyModel { algorithm: MgmAlgorithmId::ThreeDes, bytes },
                            )
                        }
                    }
                    &&& r matches Ok(key) ==> {
                        &&& salt.len() == 16
                        &&& key.algorithm == MgmAlgorithmId::ThreeDes
                        &&& key.bytes == bytes
                    }
                },
            }
        }),
{
    reveal_with_fuel(Faulty::found, 4);
}

/// What a lookup of a protected key finds, whichever operations fail: the first failure, that to
/// learn the algorithm among them, the absence of protected data or of a key in them, a failure to
/// authenticate if the bytes there are not as many as a key of the algorithm has, and otherwise the
/// key that they are, unless it is weak.
pub proof fn law_protected_lookup_under_failures(d: Faulty)
    ensures
        ({
            let r = d.found(LookupModel::ProtectedBegin);
            let get_mgm = RequestModel::GetProtectedItem(ProtectedTag::Mgm);
            let absent = Err::<KeyModel, Error>(d.card.absent);
            match (
                (d.fails)(RequestModel::BeginTransaction),
                crate::algorithm::queried_algorithm(d.metadata),
                (d.fails)(RequestModel::ReadProtectedData),
                d.card.protected,
                (d.fails)(get_mgm),
            ) {
                (Some(e), _, _, _, _) => r == Err::<KeyModel, Error>(e),
                (None, Err(e), _, _, _) => r == Err::<KeyModel, Error>(e),
                (None, Ok(_), Some(e), _, _) => r == Err::<KeyModel, Error>(e),
                (None, Ok(_), None, None, _) => r == absent,
                (None, Ok(_), None, Some(_), Some(e)) => r == Err::<KeyModel, Error>(e),
                (None, Ok(algorithm), None, Some(blob), None) => if !blob.items.dom().contains(
                    ProtectedTag::Mgm,
                ) {
                    r == absent
                } else {
                    let bytes = blob.items[ProtectedTag::Mgm];
                    let key = KeyModel { algorithm, bytes };
                    r == if !key.well_formed() {
                        Err::<KeyModel, Error>(Error::AuthenticationError)
                    } else if key.is_weak() {
                        Err::<KeyModel, Error>(Error::KeyError)
                    } else {
                        Ok::<KeyModel, Error>(key)
                    }
                },
            }
        }),
{
    reveal_with_fuel(Faulty::found, 5);
}

} // verus!
