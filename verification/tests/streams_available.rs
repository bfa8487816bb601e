use mozjs::glue::ReadableStreamUnderlyingSourceTraps;

const UNDERLYING_SOURCE_TRAPS: ReadableStreamUnderlyingSourceTraps =
    ReadableStreamUnderlyingSourceTraps {
        requestData: None,
        writeIntoReadRequestBuffer: None,
        cancel: None,
        onClosed: None,
        onErrored: None,
        finalize: None,
    };

#[test]
fn test_ok() {
    assert!(UNDERLYING_SOURCE_TRAPS.requestData.is_none());
}

#[test]
fn default_traps_hold_no_callback() {
    let traps = ReadableStreamUnderlyingSourceTraps::default();
    assert_eq!(traps, UNDERLYING_SOURCE_TRAPS);
}
