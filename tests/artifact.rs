use revm_bench::{compute_selector, decode_deployed_code, ArtifactError};

#[test]
fn selector_is_the_first_four_digest_bytes() {
    assert_eq!(compute_selector("transfer(address,uint256)"), vec![0xa9, 0x05, 0x9c, 0xbb]);
    assert_eq!(compute_selector("balanceOf(address)"), vec![0x70, 0xa0, 0x82, 0x31]);
}

#[test]
fn deployed_code_decodes_with_or_without_prefix() {
    assert_eq!(decode_deployed_code("0x6001600101"), Ok(vec![0x60, 0x01, 0x60, 0x01, 0x01]));
    assert_eq!(decode_deployed_code("6001"), Ok(vec![0x60, 0x01]));
    assert_eq!(decode_deployed_code("0xABcd"), Ok(vec![0xab, 0xcd]));
    assert_eq!(decode_deployed_code("0x"), Ok(vec![]));
    assert_eq!(decode_deployed_code(""), Ok(vec![]));
}

#[test]
fn deployed_code_errors_name_the_fault() {
    assert_eq!(decode_deployed_code("0x600"), Err(ArtifactError::OddLength));
    assert_eq!(
        decode_deployed_code("0x60zz"),
        Err(ArtifactError::InvalidHexCharacter { index: 2 })
    );
    assert_eq!(
        decode_deployed_code("0X60"),
        Err(ArtifactError::InvalidHexCharacter { index: 1 })
    );
}
