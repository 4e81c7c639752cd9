use ds2s_heap_x::image::write_u32;
use ds2s_heap_x::version::{
    get_file_version, verify, Version, VersionError, VersionGuard, FIXED_INFO_SIZE,
    VERSION_SIGNATURE,
};

/// A version resource as the resource compiler lays it out: a header of 40
/// bytes whose first word holds two 16-bit lengths, then the fixed block.
fn resource(ms: u32, ls: u32) -> Vec<u8> {
    let mut bytes = vec![0u8; 40 + FIXED_INFO_SIZE];
    write_u32(&mut bytes, 0, 0x0034_005C);
    write_u32(&mut bytes, 40, VERSION_SIGNATURE);
    write_u32(&mut bytes, 44, 0x0001_0000);
    write_u32(&mut bytes, 48, ms);
    write_u32(&mut bytes, 52, ls);
    bytes
}

#[test]
fn version_is_read_from_the_fixed_block() {
    let bytes = resource(0x0001_0000, 0x0003_0000);
    assert_eq!(
        get_file_version(Some(&bytes)),
        Ok(Version { major: 1, minor: 0, revision: 3, build: 0 })
    );
    let other = resource(0x0002_0007, 0x0100_FFFF);
    assert_eq!(
        get_file_version(Some(&other)),
        Ok(Version { major: 2, minor: 7, revision: 256, build: 65535 })
    );
}

#[test]
fn known_build_is_1_0_3_0() {
    assert_eq!(Version::known_build(), Version { major: 1, minor: 0, revision: 3, build: 0 });
}

#[test]
fn verify_accepts_only_the_known_build() {
    assert!(verify(Some(&resource(0x0001_0000, 0x0003_0000))));
    assert!(!verify(Some(&resource(0x0001_0000, 0x0003_0001))));
    assert!(!verify(Some(&resource(0x0001_0000, 0x0002_0000))));
    assert!(!verify(Some(&resource(0x0001_0001, 0x0003_0000))));
    assert!(!verify(Some(&resource(0x0002_0000, 0x0003_0000))));
    assert!(!verify(None));
    assert!(!verify(Some(&[])));
}

#[test]
fn missing_resource_is_unavailable() {
    assert_eq!(get_file_version(None), Err(VersionError::ResourceUnavailable));
}

#[test]
fn short_resource_has_bad_length() {
    assert_eq!(get_file_version(Some(&[])), Err(VersionError::BadLength));
    assert_eq!(get_file_version(Some(&[1, 2, 3])), Err(VersionError::BadLength));
    assert_eq!(get_file_version(Some(&[8, 0, 0, 0, 0, 0, 0, 0])), Err(VersionError::BadLength));
}

#[test]
fn resource_without_signature_has_bad_length() {
    let mut bytes = resource(0x0001_0000, 0x0003_0000);
    write_u32(&mut bytes, 40, 0);
    assert_eq!(get_file_version(Some(&bytes)), Err(VersionError::BadLength));
}

#[test]
fn truncated_block_has_bad_length() {
    let bytes = resource(0x0001_0000, 0x0003_0000);
    assert_eq!(get_file_version(Some(&bytes[..bytes.len() - 1])), Err(VersionError::BadLength));
    assert_eq!(get_file_version(Some(&bytes[..44])), Err(VersionError::BadLength));
}

#[test]
fn declared_length_bounds_the_search() {
    let mut bytes = resource(0x0001_0000, 0x0003_0000);
    // The resource says that it ends one byte before the block does.
    write_u32(&mut bytes, 0, 40 + FIXED_INFO_SIZE as u32 - 1);
    assert_eq!(get_file_version(Some(&bytes)), Err(VersionError::BadLength));
    write_u32(&mut bytes, 0, 40 + FIXED_INFO_SIZE as u32);
    assert_eq!(
        get_file_version(Some(&bytes)),
        Ok(Version { major: 1, minor: 0, revision: 3, build: 0 })
    );
    // A declared length that ends before the signature hides it.
    write_u32(&mut bytes, 0, 40);
    assert_eq!(get_file_version(Some(&bytes)), Err(VersionError::BadLength));
}

#[test]
fn first_signature_wins() {
    let mut bytes = vec![0u8; 8 + 2 * FIXED_INFO_SIZE];
    let len = bytes.len() as u32;
    write_u32(&mut bytes, 0, len);
    write_u32(&mut bytes, 8, VERSION_SIGNATURE);
    write_u32(&mut bytes, 16, 0x0009_0008);
    write_u32(&mut bytes, 20, 0x0007_0006);
    write_u32(&mut bytes, 8 + FIXED_INFO_SIZE, VERSION_SIGNATURE);
    write_u32(&mut bytes, 16 + FIXED_INFO_SIZE, 0x0001_0000);
    write_u32(&mut bytes, 20 + FIXED_INFO_SIZE, 0x0003_0000);
    assert_eq!(
        get_file_version(Some(&bytes)),
        Ok(Version { major: 9, minor: 8, revision: 7, build: 6 })
    );
}

#[test]
fn signature_is_only_looked_for_at_word_positions() {
    let mut bytes = vec![0u8; 6 + 2 * FIXED_INFO_SIZE];
    let len = bytes.len() as u32;
    write_u32(&mut bytes, 0, len);
    // Unaligned: not a word position, so not a match.
    write_u32(&mut bytes, 6, VERSION_SIGNATURE);
    assert_eq!(get_file_version(Some(&bytes)), Err(VersionError::BadLength));
}

#[test]
fn guard_moves_once_and_stays() {
    let known = Ok(Version { major: 1, minor: 0, revision: 3, build: 0 });
    let other = Ok(Version { major: 1, minor: 0, revision: 2, build: 0 });
    let guard = VersionGuard::Unverified;
    assert!(!guard.permits());
    assert_eq!(guard.examine(known), VersionGuard::Verified);
    assert_eq!(guard.examine(other), VersionGuard::Rejected);
    assert_eq!(guard.examine(Err(VersionError::BadLength)), VersionGuard::Rejected);
    assert_eq!(guard.examine(Err(VersionError::ResourceUnavailable)), VersionGuard::Rejected);
    assert_eq!(VersionGuard::Verified.examine(other), VersionGuard::Verified);
    assert_eq!(VersionGuard::Rejected.examine(known), VersionGuard::Rejected);
    assert!(VersionGuard::Verified.permits());
    assert!(!VersionGuard::Rejected.permits());
}
