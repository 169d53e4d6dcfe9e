use jexcel::Error;

#[test]
fn encoder_error_codes_map_to_the_closed_set() {
    assert_eq!(Error::try_from_libjxl_encoder(0), Ok(()));
    assert_eq!(Error::try_from_libjxl_encoder(2), Err(Error::OutOfMemory));
    assert_eq!(Error::try_from_libjxl_encoder(3), Err(Error::JpegBitstreamReconstruction));
    assert_eq!(Error::try_from_libjxl_encoder(4), Err(Error::BadInput));
    assert_eq!(Error::try_from_libjxl_encoder(0x80), Err(Error::NotSupported));
    assert_eq!(Error::try_from_libjxl_encoder(0x81), Err(Error::ApiUsage));
}

#[test]
fn every_other_encoder_code_is_unknown() {
    let known = [0u32, 2, 3, 4, 0x80, 0x81];
    for code in 0..1024u32 {
        if !known.contains(&code) {
            assert_eq!(Error::try_from_libjxl_encoder(code), Err(Error::Unknown));
        }
    }
    assert_eq!(Error::try_from_libjxl_encoder(1), Err(Error::Unknown));
    assert_eq!(Error::try_from_libjxl_encoder(u32::MAX), Err(Error::Unknown));
}

#[test]
fn decoder_status_is_success_or_unknown() {
    assert_eq!(Error::try_from_libjxl_decoder(0), Ok(()));
    assert_eq!(Error::try_from_libjxl_decoder(1), Err(Error::Unknown));
    assert_eq!(Error::try_from_libjxl_decoder(2), Err(Error::Unknown));
    assert_eq!(Error::try_from_libjxl_decoder(0x1000), Err(Error::Unknown));
}

#[test]
fn errors_have_their_texts() {
    assert_eq!(Error::OutOfMemory.to_string(), "out of memory");
    assert_eq!(
        Error::JpegBitstreamReconstruction.to_string(),
        "cannot produce JPEG bitstream reconstruction data"
    );
    assert_eq!(Error::ApiUsage.to_string(), "wrong API usage");
    assert_eq!(Error::BadInput.to_string(), "bad input");
    assert_eq!(Error::NotSupported.to_string(), "not supported");
    assert_eq!(Error::Unknown.to_string(), "unknown error");
}
