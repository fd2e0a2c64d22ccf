use std::cell::RefCell;

use aws_sdk_s3::operation::get_object::GetObjectError;
use aws_sdk_s3::types::error::NoSuchKey;
use rust_lambda_image_uploader::metadata::MetadataError;
use rust_lambda_image_uploader::s3::{
    upload_report, GetFile, ImageMetadata, PutFile, CONTENT_TYPE_KEY, HEIGHT_KEY, WIDTH_KEY,
    X_KEY, Y_KEY,
};
use rust_lambda_image_uploader::StringHashMap;

fn mapping(entries: &[(&str, &str)]) -> StringHashMap<String> {
    let mut map = StringHashMap::new();
    for (key, value) in entries {
        map.insert(key.to_string(), value.to_string());
    }
    map
}

fn complete() -> Vec<(&'static str, &'static str)> {
    vec![
        ("Content-Type", "image/png"),
        ("x-amz-meta-portraithight", "200"),
        ("x-amz-meta-portraitwidth", "150"),
        ("x-amz-meta-x1", "50"),
        ("x-amz-meta-y1", "60"),
    ]
}

fn described() -> ImageMetadata {
    ImageMetadata {
        content_type: "image/png".to_string(),
        portrait_hight: 200,
        portrait_width: 150,
        x1: 50,
        y1: 60,
    }
}

#[test]
fn object_metadata_keys_carry_the_storage_prefix() {
    assert_eq!(CONTENT_TYPE_KEY, "Content-Type");
    assert_eq!(HEIGHT_KEY, "x-amz-meta-portraithight");
    assert_eq!(WIDTH_KEY, "x-amz-meta-portraitwidth");
    assert_eq!(X_KEY, "x-amz-meta-x1");
    assert_eq!(Y_KEY, "x-amz-meta-y1");
}

#[test]
fn object_metadata_is_read() {
    assert_eq!(ImageMetadata::read(&mapping(&complete())), Ok(described()));
}

#[test]
fn geometry_is_the_rectangle_without_the_content_type() {
    assert_eq!(
        described().geometry(),
        rust_lambda_image_uploader::ImageMetadata {
            portrait_hight: 200,
            portrait_width: 150,
            x1: 50,
            y1: 60
        }
    );
}

#[test]
fn missing_content_type_is_reported_first() {
    assert_eq!(
        ImageMetadata::read(&mapping(&[("x-amz-meta-x1", "oops")])),
        Err(MetadataError::MissingField("Content-Type".to_string()))
    );
    assert_eq!(
        ImageMetadata::read(&mapping(&[("content-type", "image/png")])),
        Err(MetadataError::MissingField("Content-Type".to_string()))
    );
}

#[test]
fn each_missing_object_field_is_named() {
    for name in &complete()[1..] {
        let entries: Vec<_> = complete().into_iter().filter(|entry| entry.0 != name.0).collect();
        assert_eq!(
            ImageMetadata::read(&mapping(&entries)),
            Err(MetadataError::MissingField(name.0.to_string()))
        );
    }
}

#[test]
fn unprefixed_keys_do_not_count() {
    let entries = [
        ("Content-Type", "image/png"),
        ("portraithight", "200"),
        ("portraitwidth", "150"),
        ("x1", "50"),
        ("y1", "60"),
    ];
    assert_eq!(
        ImageMetadata::read(&mapping(&entries)),
        Err(MetadataError::MissingField("x-amz-meta-portraithight".to_string()))
    );
}

#[test]
fn invalid_object_field_is_named_with_its_text() {
    let mut entries = complete();
    entries[2] = ("x-amz-meta-portraitwidth", "1e2");
    assert_eq!(
        ImageMetadata::read(&mapping(&entries)),
        Err(MetadataError::InvalidField("x-amz-meta-portraitwidth".to_string(), "1e2".to_string()))
    );
}

#[test]
fn upload_report_names_key_and_bucket() {
    assert_eq!(
        upload_report("cat.png", "thumbnails"),
        "Uploaded a file with key cat.png into thumbnails"
    );
    assert_eq!(upload_report("", ""), "Uploaded a file with key  into ");
    assert_eq!(upload_report("a b/ç", "b"), "Uploaded a file with key a b/ç into b");
}

/// A storage in memory, as a user of the two traits would write one.
struct Shelf {
    held: RefCell<Vec<(String, String, Vec<u8>)>>,
}

impl GetFile for Shelf {
    fn get_file(&self, bucket: &str, key: &str) -> Result<(Vec<u8>, ImageMetadata), GetObjectError> {
        self.held
            .borrow()
            .iter()
            .find(|entry| entry.0 == bucket && entry.1 == key)
            .map(|entry| (entry.2.clone(), described()))
            .ok_or_else(|| GetObjectError::NoSuchKey(NoSuchKey::builder().build()))
    }
}

impl PutFile for Shelf {
    fn put_file(&self, bucket: &str, key: &str, bytes: Vec<u8>) -> Result<String, String> {
        if bucket.is_empty() {
            return Err("NoSuchBucket".to_string());
        }
        self.held.borrow_mut().push((bucket.to_string(), key.to_string(), bytes));
        Ok(upload_report(key, bucket))
    }
}

#[test]
fn storage_traits_can_be_implemented() {
    let shelf = Shelf { held: RefCell::new(Vec::new()) };
    assert!(matches!(shelf.get_file("b", "k"), Err(GetObjectError::NoSuchKey(_))));
    assert_eq!(
        shelf.put_file("b", "k", vec![1, 2, 3]),
        Ok("Uploaded a file with key k into b".to_string())
    );
    assert_eq!(shelf.put_file("", "k", vec![]), Err("NoSuchBucket".to_string()));
    assert_eq!(shelf.get_file("b", "k").unwrap(), (vec![1, 2, 3], described()));
}
