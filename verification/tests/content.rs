use rmcp::model::{
    Annotated, Content, EmbeddedResource, IntoContents, RawContent, RawEmbeddedResource,
    ResourceContents,
};

#[test]
fn text_content_reads_back() {
    let c = RawContent::text("hello");
    assert_eq!(c.as_text().unwrap().text, "hello");
    assert!(c.as_image().is_none());
    assert!(c.as_resource().is_none());
}

#[test]
fn image_content_reads_back() {
    let c = RawContent::image("aGk=", "image/png");
    let img = c.as_image().unwrap();
    assert_eq!(img.data, "aGk=");
    assert_eq!(img.mime_type, "image/png");
    assert!(c.as_text().is_none());
}

#[test]
fn embedded_text_is_a_text_resource() {
    let c = RawContent::embedded_text("memo://insights", "five insights");
    let r = c.as_resource().unwrap();
    match &r.resource {
        ResourceContents::TextResourceContents { uri, mime_type, text } => {
            assert_eq!(uri, "memo://insights");
            assert_eq!(mime_type.as_deref(), Some("text"));
            assert_eq!(text, "five insights");
        }
        _ => panic!("expected a text resource"),
    }
}

#[test]
fn get_text_of_text_and_blob() {
    let text: EmbeddedResource = Annotated::new(RawEmbeddedResource {
        resource: ResourceContents::TextResourceContents {
            uri: "file:///a".to_string(),
            mime_type: None,
            text: "abc".to_string(),
        },
    });
    assert_eq!(text.get_text(), "abc");
    let blob: EmbeddedResource = Annotated::new(RawEmbeddedResource {
        resource: ResourceContents::BlobResourceContents {
            uri: "file:///b".to_string(),
            mime_type: Some("application/octet-stream".to_string()),
            blob: "AAEC".to_string(),
        },
    });
    assert_eq!(blob.get_text(), "");
}

#[test]
fn resource_constructor_keeps_contents() {
    let c = RawContent::resource(ResourceContents::BlobResourceContents {
        uri: "file:///b".to_string(),
        mime_type: None,
        blob: "AAEC".to_string(),
    });
    match &c.as_resource().unwrap().resource {
        ResourceContents::BlobResourceContents { uri, blob, .. } => {
            assert_eq!(uri, "file:///b");
            assert_eq!(blob, "AAEC");
        }
        _ => panic!("expected a blob resource"),
    }
}

#[test]
fn content_text_has_no_annotation() {
    let c = Content::text("x");
    assert!(c.annotations.is_none());
    assert_eq!(c.raw.as_text().unwrap().text, "x");
}

#[test]
fn string_into_contents_is_one_text() {
    let v = "rain".to_string().into_contents();
    assert_eq!(v.len(), 1);
    assert_eq!(v[0].raw.as_text().unwrap().text, "rain");
    assert!(v[0].annotations.is_none());
}
