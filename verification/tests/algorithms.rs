use mgm::algorithm::{ManagementAlgorithmId, MgmAlgorithmId};
use mgm::error::Error;

#[test]
fn codes_are_read_back() {
    for (id, code) in [
        (MgmAlgorithmId::ThreeDes, 0x03),
        (MgmAlgorithmId::Aes128, 0x08),
        (MgmAlgorithmId::Aes192, 0x0a),
        (MgmAlgorithmId::Aes256, 0x0c),
    ] {
        assert_eq!(u8::from(id), code);
        assert_eq!(MgmAlgorithmId::try_from(code), Ok(id));
    }
}

#[test]
fn unknown_codes_are_refused() {
    for code in 0..=255u8 {
        match MgmAlgorithmId::try_from(code) {
            Ok(id) => assert_eq!(u8::from(id), code),
            Err(e) => {
                assert_eq!(e, Error::AlgorithmError);
                assert!(![0x03, 0x08, 0x0a, 0x0c].contains(&code));
            }
        }
    }
}

#[test]
fn query_names_management_algorithms() {
    for (answer, id) in [
        (ManagementAlgorithmId::ThreeDes, MgmAlgorithmId::ThreeDes),
        (ManagementAlgorithmId::Aes128, MgmAlgorithmId::Aes128),
        (ManagementAlgorithmId::Aes192, MgmAlgorithmId::Aes192),
        (ManagementAlgorithmId::Aes256, MgmAlgorithmId::Aes256),
    ] {
        assert_eq!(MgmAlgorithmId::query(Ok(answer)), Ok(id));
    }
}

#[test]
fn query_refuses_other_algorithms() {
    for answer in [ManagementAlgorithmId::PinPuk, ManagementAlgorithmId::Asymmetric(0x11)] {
        assert_eq!(MgmAlgorithmId::query(Ok(answer)), Err(Error::InvalidObject));
    }
}

#[test]
fn query_reads_errors() {
    assert_eq!(
        MgmAlgorithmId::query(Err(Error::NotSupported)),
        Ok(MgmAlgorithmId::ThreeDes)
    );
    assert_eq!(
        MgmAlgorithmId::query(Err(Error::AlgorithmError)),
        Err(Error::NotSupported)
    );
    for e in [
        Error::AuthenticationError,
        Error::GenericError,
        Error::InvalidObject,
        Error::KeyError,
        Error::ParseError,
        Error::SizeError,
        Error::Device(7),
    ] {
        assert_eq!(MgmAlgorithmId::query(Err(e)), Err(e));
    }
}
