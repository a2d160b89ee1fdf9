use snocat::common::MetaStreamHeader;

#[test]
fn meta_stream_headers_are_all_equal() {
    let header = MetaStreamHeader::new();
    assert_eq!(header, MetaStreamHeader {});
    assert_eq!(header.clone(), MetaStreamHeader::new());
}
