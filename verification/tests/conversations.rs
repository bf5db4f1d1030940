use mgm::algorithm::{ManagementAlgorithmId, MgmAlgorithmId, Version};
use mgm::error::Error;
use mgm::key::{MgmKey, DEFAULT_MGM_KEY};
use mgm::lookup::{KeyLookup, LookupStep};
use mgm::request::{AdminTag, ProtectedTag, Request};
use mgm::update::{KeyUpdate, Step};

const ABSENT: Error = Error::Device(1);
const BROKEN: Error = Error::Device(2);

/// Items of admin data: the flags and the salt.
#[derive(Clone, Debug, Default, PartialEq)]
struct Admin {
    flags: Vec<u8>,
    salt: Vec<u8>,
}

/// A device that keeps what it is told, but for the operations that it is made to fail. The items
/// under other tags of a blob are kept as one run of bytes.
struct Device {
    key: MgmKey,
    require_touch: bool,
    has_metadata: bool,
    admin: Option<Admin>,
    protected: Option<Vec<u8>>,
    admin_draft: Admin,
    protected_draft: Vec<u8>,
    admin_others: Vec<u8>,
    protected_others: Vec<u8>,
    admin_others_draft: Vec<u8>,
    protected_others_draft: Vec<u8>,
    broken: Vec<&'static str>,
    trace: Vec<&'static str>,
}

fn device() -> Device {
    Device {
        key: MgmKey::default(),
        require_touch: false,
        has_metadata: true,
        admin: None,
        protected: None,
        admin_draft: Admin { flags: vec![0xFF], salt: vec![9; 16] },
        protected_draft: vec![9; 24],
        admin_others: vec![],
        protected_others: vec![],
        admin_others_draft: vec![9],
        protected_others_draft: vec![9],
        broken: vec![],
        trace: vec![],
    }
}

fn item(bytes: &[u8]) -> Result<Vec<u8>, Error> {
    if bytes.is_empty() {
        Err(ABSENT)
    } else {
        Ok(bytes.to_vec())
    }
}

fn name(request: &Request) -> &'static str {
    match request {
        Request::BeginTransaction => "begin",
        Request::SetMgmKey { .. } => "set key",
        Request::ReadAdminData => "read admin",
        Request::NewAdminData => "new admin",
        Request::GetAdminItem(AdminTag::Flags1) => "get flags",
        Request::GetAdminItem(AdminTag::Salt) => "get salt",
        Request::SetAdminItem(AdminTag::Flags1, _) => "set flags",
        Request::SetAdminItem(AdminTag::Salt, _) => "set salt",
        Request::WriteAdminData => "write admin",
        Request::ReadProtectedData => "read protected",
        Request::NewProtectedData => "new protected",
        Request::GetProtectedItem(ProtectedTag::Mgm) => "get mgm",
        Request::SetProtectedItem(ProtectedTag::Mgm, _) => "set mgm",
        Request::WriteProtectedData => "write protected",
    }
}

impl Device {
    fn perform(&mut self, request: Request) -> Result<Vec<u8>, Error> {
        let name = name(&request);
        self.trace.push(name);
        if self.broken.contains(&name) {
            return Err(BROKEN);
        }
        match request {
            Request::BeginTransaction => {}
            Request::SetMgmKey { key, require_touch } => {
                self.key = key;
                self.require_touch = require_touch;
            }
            Request::ReadAdminData => {
                self.admin_draft = self.admin.clone().ok_or(ABSENT)?;
                self.admin_others_draft = self.admin_others.clone();
            }
            Request::NewAdminData => {
                self.admin_draft = Admin::default();
                self.admin_others_draft = vec![];
            }
            Request::GetAdminItem(AdminTag::Flags1) => return item(&self.admin_draft.flags),
            Request::GetAdminItem(AdminTag::Salt) => return item(&self.admin_draft.salt),
            Request::SetAdminItem(AdminTag::Flags1, value) => self.admin_draft.flags = value,
            Request::SetAdminItem(AdminTag::Salt, value) => self.admin_draft.salt = value,
            Request::WriteAdminData => {
                self.admin = Some(self.admin_draft.clone());
                self.admin_others = self.admin_others_draft.clone();
            }
            Request::ReadProtectedData => {
                self.protected_draft = self.protected.clone().ok_or(ABSENT)?;
                self.protected_others_draft = self.protected_others.clone();
            }
            Request::NewProtectedData => {
                self.protected_draft = vec![];
                self.protected_others_draft = vec![];
            }
            Request::GetProtectedItem(ProtectedTag::Mgm) => return item(&self.protected_draft),
            Request::SetProtectedItem(ProtectedTag::Mgm, value) => self.protected_draft = value,
            Request::WriteProtectedData => {
                self.protected = Some(self.protected_draft.clone());
                self.protected_others = self.protected_others_draft.clone();
            }
        }
        Ok(vec![])
    }

    fn metadata(&self) -> Result<ManagementAlgorithmId, Error> {
        if !self.has_metadata {
            return Err(Error::NotSupported);
        }
        Ok(match self.key.algorithm_id() {
            MgmAlgorithmId::ThreeDes => ManagementAlgorithmId::ThreeDes,
            MgmAlgorithmId::Aes128 => ManagementAlgorithmId::Aes128,
            MgmAlgorithmId::Aes192 => ManagementAlgorithmId::Aes192,
            MgmAlgorithmId::Aes256 => ManagementAlgorithmId::Aes256,
        })
    }

    fn change(&mut self, mut update: KeyUpdate) -> Result<(), Error> {
        self.trace.clear();
        loop {
            match update.step() {
                Step::Ask(request) => {
                    let reply = self.perform(request);
                    update.resume(reply);
                }
                Step::Return(r) => return r,
            }
        }
    }

    fn find(&mut self, mut lookup: KeyLookup) -> Result<MgmKey, Error> {
        self.trace.clear();
        loop {
            match lookup.step() {
                LookupStep::Ask(request) => {
                    let reply = self.perform(request);
                    lookup = lookup.resume(reply);
                }
                LookupStep::AskAlgorithm => {
                    self.trace.push("algorithm");
                    lookup = lookup.resume_algorithm(self.metadata());
                }
                LookupStep::Return(r) => return r,
            }
        }
    }
}

fn aes256() -> MgmKey {
    MgmKey::from_bytes(&[5; 32], None).ok().unwrap()
}

#[test]
fn manual_change_wipes_metadata() {
    let mut d = device();
    d.admin = Some(Admin { flags: vec![0x83], salt: vec![4; 16] });
    d.protected = Some(vec![7; 24]);
    assert_eq!(d.change(aes256().set_manual(true)), Ok(()));
    assert_eq!(
        d.trace,
        [
            "begin", "set key", "read admin", "get flags", "set flags", "set salt", "write admin",
            "read protected", "set mgm", "write protected"
        ]
    );
    assert_eq!(d.key.as_ref(), &[5; 32][..]);
    assert!(d.require_touch);
    assert_eq!(d.admin, Some(Admin { flags: vec![0x81], salt: vec![] }));
    assert_eq!(d.protected, Some(vec![]));
    assert_eq!(d.find(MgmKey::get_derived(b"123456")).err(), Some(ABSENT));
    assert_eq!(d.find(MgmKey::get_protected()).err(), Some(ABSENT));
}

#[test]
fn manual_change_creates_no_metadata() {
    let mut d = device();
    assert_eq!(d.change(aes256().set_manual(false)), Ok(()));
    assert_eq!(d.trace, ["begin", "set key", "read admin", "read protected"]);
    assert!(!d.require_touch);
    assert_eq!(d.admin, None);
    assert_eq!(d.protected, None);
}

#[test]
fn manual_change_leaves_odd_flags() {
    for flags in [vec![], vec![0x02, 0x02]] {
        let mut d = device();
        d.admin = Some(Admin { flags: flags.clone(), salt: vec![4; 16] });
        assert_eq!(d.change(aes256().set_manual(false)), Ok(()));
        assert_eq!(
            d.trace,
            ["begin", "set key", "read admin", "get flags", "set salt", "write admin",
                "read protected"]
        );
        assert_eq!(d.admin, Some(Admin { flags, salt: vec![] }));
    }
}

#[test]
fn failure_to_begin_or_set_key_ends_change() {
    for update in [aes256().set_manual(true), aes256().set_protected()] {
        let mut d = device();
        d.broken = vec!["begin"];
        assert_eq!(d.change(update), Err(BROKEN));
        assert_eq!(d.trace, ["begin"]);
    }
    for update in [aes256().set_manual(true), aes256().set_protected()] {
        let mut d = device();
        d.broken = vec!["set key"];
        assert_eq!(d.change(update), Err(BROKEN));
        assert_eq!(d.trace, ["begin", "set key"]);
    }
}

#[test]
fn manual_change_succeeds_without_metadata() {
    let steps = [
        "read admin", "get flags", "set flags", "set salt", "write admin", "read protected",
        "set mgm", "write protected",
    ];
    for choice in 0..256u32 {
        let mut d = device();
        d.admin = Some(Admin { flags: vec![0xFF], salt: vec![4; 16] });
        d.protected = Some(vec![7; 24]);
        d.broken = (0..8).filter(|i| choice >> i & 1 == 1).map(|i| steps[i]).collect();
        assert_eq!(d.change(aes256().set_manual(false)), Ok(()));
        assert_eq!(d.key.as_ref(), &[5; 32][..]);
        // The rest of the admin data is written though an item could not be set.
        let read = !d.broken.contains(&"read admin");
        assert_eq!(d.trace.contains(&"write admin"), read);
        let cleared = !d.broken.contains(&"read protected") && !d.broken.contains(&"set mgm");
        assert_eq!(d.trace.contains(&"write protected"), cleared);
    }
}

#[test]
fn protected_change_keeps_key() {
    let mut d = device();
    d.require_touch = true;
    d.admin = Some(Admin { flags: vec![0x81], salt: vec![4; 16] });
    d.protected = Some(vec![7; 24]);
    assert_eq!(d.change(aes256().set_protected()), Ok(()));
    assert_eq!(
        d.trace,
        [
            "begin", "set key", "read protected", "set mgm", "write protected", "read admin",
            "get flags", "set salt", "set flags", "write admin"
        ]
    );
    assert!(!d.require_touch);
    assert_eq!(d.admin, Some(Admin { flags: vec![0x83], salt: vec![] }));
    assert_eq!(d.protected, Some(vec![5; 32]));
}

#[test]
fn protected_change_creates_metadata() {
    let mut d = device();
    assert_eq!(d.change(aes256().set_protected()), Ok(()));
    assert_eq!(
        d.trace,
        [
            "begin", "set key", "read protected", "new protected", "set mgm", "write protected",
            "read admin", "new admin", "set flags", "write admin"
        ]
    );
    assert_eq!(d.admin, Some(Admin { flags: vec![0x02], salt: vec![] }));
    assert_eq!(d.protected, Some(vec![5; 32]));
}

#[test]
fn protected_change_replaces_odd_flags() {
    for flags in [vec![], vec![0x11, 0x22]] {
        let mut d = device();
        d.admin = Some(Admin { flags, salt: vec![4; 16] });
        assert_eq!(d.change(aes256().set_protected()), Ok(()));
        assert_eq!(d.admin, Some(Admin { flags: vec![0x02], salt: vec![] }));
    }
}

#[test]
fn protected_change_fails_only_on_protected_write() {
    let steps = [
        "read protected", "set mgm", "write protected", "read admin", "get flags", "set salt",
        "set flags", "write admin",
    ];
    for choice in 0..256u32 {
        let mut d = device();
        d.admin = Some(Admin { flags: vec![0x80], salt: vec![4; 16] });
        d.protected = Some(vec![7; 24]);
        d.broken = (0..8).filter(|i| choice >> i & 1 == 1).map(|i| steps[i]).collect();
        let r = d.change(aes256().set_protected());
        let unset = d.broken.contains(&"set mgm");
        assert_eq!(d.trace.contains(&"write protected"), !unset);
        if !unset && d.broken.contains(&"write protected") {
            assert_eq!(r, Err(BROKEN));
            assert!(!d.trace.contains(&"read admin"));
        } else {
            assert_eq!(r, Ok(()));
            assert!(d.trace.contains(&"read admin"));
            assert_eq!(d.trace.contains(&"write admin"), !d.broken.contains(&"set flags"));
        }
    }
}

#[test]
fn protected_key_is_found() {
    for key in [MgmKey::default(), aes256()] {
        let mut d = device();
        assert_eq!(d.change(key.set_protected()), Ok(()));
        let found = d.find(MgmKey::get_protected()).ok().unwrap();
        assert_eq!(d.trace, ["begin", "algorithm", "read protected", "get mgm"]);
        assert_eq!(found.algorithm_id(), key.algorithm_id());
        assert_eq!(found.as_ref(), key.as_ref());
    }
}

#[test]
fn protected_key_without_metadata_is_3des() {
    let mut d = device();
    d.has_metadata = false;
    assert_eq!(d.change(MgmKey::default().set_protected()), Ok(()));
    let found = d.find(MgmKey::get_protected()).ok().unwrap();
    assert_eq!(found.algorithm_id(), MgmAlgorithmId::ThreeDes);
    assert_eq!(found.as_ref(), &DEFAULT_MGM_KEY[..]);

    assert_eq!(d.change(aes256().set_protected()), Ok(()));
    assert_eq!(d.find(MgmKey::get_protected()).err(), Some(Error::AuthenticationError));
}

#[test]
fn weak_protected_key_is_refused() {
    let mut d = device();
    d.protected = Some(vec![0x01; 24]);
    assert_eq!(d.find(MgmKey::get_protected()).err(), Some(Error::KeyError));
}

#[test]
fn repeated_change_keeps_metadata() {
    for flags in [vec![], vec![0x83], vec![0x02, 0x02]] {
        for protected in [false, true] {
            let mut d = device();
            d.admin = Some(Admin { flags: flags.clone(), salt: vec![4; 16] });
            d.protected = Some(vec![7; 24]);
            let change = |key: MgmKey| {
                if protected {
                    key.set_protected()
                } else {
                    key.set_manual(true)
                }
            };
            assert_eq!(d.change(change(aes256())), Ok(()));
            let once = (d.admin.clone(), d.protected.clone());
            assert_eq!(d.change(change(aes256())), Ok(()));
            assert_eq!((d.admin, d.protected), once);
        }
    }
}

#[test]
fn change_leaves_items_under_other_tags() {
    for update in [aes256().set_manual(true), aes256().set_protected()] {
        let mut d = device();
        d.admin = Some(Admin { flags: vec![0x81], salt: vec![4; 16] });
        d.protected = Some(vec![7; 24]);
        d.admin_others = vec![1, 2, 3];
        d.protected_others = vec![4, 5];
        assert_eq!(d.change(update), Ok(()));
        assert_eq!(d.admin_others, [1, 2, 3]);
        assert_eq!(d.protected_others, [4, 5]);
    }
}

#[test]
fn created_metadata_have_no_items_under_other_tags() {
    let mut d = device();
    assert_eq!(d.change(aes256().set_protected()), Ok(()));
    assert!(d.admin.is_some() && d.protected.is_some());
    assert_eq!(d.admin_others, []);
    assert_eq!(d.protected_others, []);
}

#[test]
fn refused_algorithm_ends_lookup() {
    let lookup = MgmKey::get_protected().resume(Ok(vec![]));
    let lookup = lookup.resume_algorithm(Err(Error::AlgorithmError));
    assert!(matches!(lookup.step(), LookupStep::Return(Err(Error::NotSupported))));
    let lookup = MgmKey::get_protected().resume(Ok(vec![]));
    let lookup = lookup.resume_algorithm(Ok(ManagementAlgorithmId::PinPuk));
    assert!(matches!(lookup.step(), LookupStep::Return(Err(Error::InvalidObject))));
}

#[test]
fn failures_end_lookup() {
    for step in ["begin", "read admin", "get salt"] {
        let mut d = device();
        d.admin = Some(Admin { flags: vec![0], salt: vec![4; 16] });
        d.broken = vec![step];
        assert_eq!(d.find(MgmKey::get_derived(b"123456")).err(), Some(BROKEN));
        assert_eq!(d.trace.last(), Some(&step));
    }
    for step in ["begin", "read protected", "get mgm"] {
        let mut d = device();
        d.protected = Some(vec![7; 24]);
        d.broken = vec![step];
        assert_eq!(d.find(MgmKey::get_protected()).err(), Some(BROKEN));
        assert_eq!(d.trace.last(), Some(&step));
    }
}

#[test]
fn lookup_waits_for_what_it_asked_for() {
    let lookup = MgmKey::get_protected().resume(Ok(vec![]));
    assert!(matches!(lookup.step(), LookupStep::AskAlgorithm));
    let lookup = lookup.resume(Err(BROKEN)).resume(Ok(vec![1]));
    assert!(matches!(lookup.step(), LookupStep::AskAlgorithm));
    let lookup = MgmKey::get_derived(b"1").resume_algorithm(Err(BROKEN));
    assert!(matches!(lookup.step(), LookupStep::Ask(Request::BeginTransaction)));
    let lookup = lookup.resume(Err(BROKEN)).resume(Ok(vec![])).resume(Err(ABSENT));
    assert!(matches!(lookup.step(), LookupStep::Return(Err(BROKEN))));
}

#[test]
fn derived_key_is_found() {
    let mut d = device();
    let salt: Vec<u8> = (0..16).collect();
    d.admin = Some(Admin { flags: vec![], salt: salt.clone() });
    let found = d.find(MgmKey::get_derived(b"123456")).ok().unwrap();
    assert_eq!(d.trace, ["begin", "read admin", "get salt"]);
    let derived = MgmKey::derive(&salt, b"123456").ok().unwrap();
    assert_eq!(found.as_ref(), derived.as_ref());

    d.admin = Some(Admin { flags: vec![], salt: vec![1; 15] });
    assert_eq!(d.find(MgmKey::get_derived(b"123456")).err(), Some(Error::GenericError));
}

#[test]
fn reset_sets_default_key() {
    for (major, minor, alg) in [
        (5, 6, MgmAlgorithmId::ThreeDes),
        (5, 7, MgmAlgorithmId::Aes192),
    ] {
        let mut d = device();
        d.key = aes256();
        d.require_touch = true;
        d.admin = Some(Admin { flags: vec![0x02], salt: vec![4; 16] });
        d.protected = Some(vec![5; 32]);
        let update = MgmKey::set_default(Version { major, minor, patch: 1 }).ok().unwrap();
        assert_eq!(d.change(update), Ok(()));
        assert_eq!(d.key.algorithm_id(), alg);
        assert_eq!(d.key.as_ref(), &DEFAULT_MGM_KEY[..]);
        assert!(!d.require_touch);
        assert_eq!(d.admin, Some(Admin { flags: vec![0x00], salt: vec![] }));
        assert_eq!(d.protected, Some(vec![]));
    }
}

#[test]
fn finished_change_stays_finished() {
    let mut update = aes256().set_manual(false);
    update.resume(Err(BROKEN));
    update.resume(Ok(vec![]));
    update.resume(Err(ABSENT));
    assert!(matches!(update.step(), Step::Return(Err(BROKEN))));
}
