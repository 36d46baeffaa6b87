use omarec::cli::{parse_audio_source, parse_geometry};
use omarec::domain::{AudioSource, Geometry};

#[test]
fn region_parser_accepts_negative_offsets() {
    assert_eq!(
        parse_geometry("1920x1080+-1920+0").unwrap(),
        Geometry { width: 1920, height: 1080, x: -1920, y: 0 }
    );
}

#[test]
fn audio_parser_adds_required_prefix_semantics() {
    assert_eq!(
        parse_audio_source("app:firefox").unwrap(),
        AudioSource::Application { name: "firefox".to_owned() }
    );
}

#[test]
fn region_text_reads_back_as_the_same_region() {
    for geometry in [
        Geometry { width: 1, height: 1, x: i32::MIN, y: i32::MAX },
        Geometry { width: u32::MAX, height: 7, x: 0, y: -1 },
    ] {
        assert_eq!(parse_geometry(&geometry.to_gsr_region()).unwrap(), geometry);
    }
    assert!(parse_geometry(&Geometry { width: 0, height: 5, x: 0, y: 0 }.to_gsr_region()).is_err());
}

#[test]
fn audio_source_text_reads_back_as_the_same_source() {
    for source in [
        AudioSource::DefaultOutput,
        AudioSource::DefaultInput,
        AudioSource::Device { name: "alsa_input.usb".to_owned() },
        AudioSource::Application { name: "firefox".to_owned() },
        AudioSource::ApplicationExcept { name: "discord".to_owned() },
    ] {
        assert_eq!(parse_audio_source(&source.to_gsr_value()).unwrap(), source);
    }
    assert!(parse_audio_source("device:").is_err());
    assert!(parse_audio_source("speaker").is_err());
}

#[test]
fn region_text_reads_back_and_an_empty_region_is_refused() {
    let region = Geometry { width: 1920, height: 1080, x: -1920, y: 0 };
    assert_eq!(parse_geometry(&region.to_gsr_region()).unwrap(), region);
    for empty in [
        Geometry { width: 0, height: 1080, x: 5, y: -5 },
        Geometry { width: 640, height: 0, x: 0, y: 0 },
    ] {
        assert_eq!(parse_geometry(&empty.to_gsr_region()), Err("width and height must be non-zero".to_owned()));
    }
}
