use neko_manifest::archive::{descriptor_from, get_loader_install_profile};
use neko_manifest::error::ManifestError;
use std::io::{Cursor, Write};
use zip::result::ZipError;
use zip::write::SimpleFileOptions;
use zip::ZipWriter;

fn archive(entries: &[(&str, &[u8])]) -> Vec<u8> {
    let mut writer = ZipWriter::new(Cursor::new(Vec::new()));
    for (name, bytes) in entries {
        writer.start_file(*name, SimpleFileOptions::default()).unwrap();
        writer.write_all(bytes).unwrap();
    }
    writer.finish().unwrap().into_inner()
}

fn malformed() -> Result<String, ManifestError> {
    Err(ManifestError::MalformedResponse("version.json".to_string()))
}

#[test]
fn reads_the_descriptor_entry() {
    let text = "{\"id\":\"1.20.1-forge-47.2.0\",\"mainClass\":\"Main\"}";
    let bytes = archive(&[
        ("install_profile.json", b"{}"),
        ("version.json", text.as_bytes()),
        ("data/client.lzma", &[1, 2, 3]),
    ]);
    assert_ne!(bytes, text.as_bytes());
    assert_eq!(get_loader_install_profile(bytes), Ok(text.to_string()));
}

#[test]
fn reads_an_empty_descriptor() {
    assert_eq!(get_loader_install_profile(archive(&[("version.json", b"")])), Ok(String::new()));
}

#[test]
fn an_archive_without_the_entry_is_malformed() {
    let bytes = archive(&[("install_profile.json", b"{}"), ("Version.json", b"{}")]);
    assert_eq!(get_loader_install_profile(bytes), malformed());
    assert_eq!(get_loader_install_profile(archive(&[])), malformed());
}

#[test]
fn bytes_that_are_no_archive_are_malformed() {
    assert_eq!(get_loader_install_profile(vec![]), malformed());
    assert_eq!(get_loader_install_profile(b"not an archive at all".to_vec()), malformed());
}

#[test]
fn an_entry_that_is_no_text_is_malformed() {
    let bytes = archive(&[("version.json", &[0xff, 0xfe, 0x00, 0x80])]);
    assert_eq!(get_loader_install_profile(bytes), malformed());
}

#[test]
fn descriptor_from_passes_text_on_and_maps_errors() {
    assert_eq!(descriptor_from(Ok("{}".to_string())), Ok("{}".to_string()));
    assert_eq!(descriptor_from(Err(ZipError::FileNotFound)), malformed());
    assert_eq!(descriptor_from(Err(ZipError::InvalidPassword)), malformed());
}
