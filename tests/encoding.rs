use hexa_icons::data_url::png_data_url;
use hexa_icons::fingerprint::{cache_entry_name, fingerprint};
use hexa_icons::keys::{is_link_path, push_decimal, resource_key};
use hexa_icons::pixels::{bgra_to_rgba, encode_icon_png, is_png, usable_png, ExtractError};
use hexa_icons::extract::extract_icon_from_resource;
use hexa_icons::extract::NativeCall;
use hexa_icons::shortcut::{buffer_text, trim_nul, ShortcutInfo};

#[test]
fn fingerprint_is_sha256_hex() {
    assert_eq!(
        fingerprint("abc"),
        "ba7816bf8f01cfea414140de5dae2223b00361a396177a9cb410ff61f20015ad"
    );
    assert_eq!(
        fingerprint(""),
        "e3b0c44298fc1c149afbf4c8996fb92427ae41e4649b934ca495991b7852b855"
    );
}

#[test]
fn fingerprint_is_deterministic() {
    let key = "C:\\apps\\tool.exe";
    assert_eq!(fingerprint(key), fingerprint(key));
    assert_eq!(
        fingerprint(key),
        "89e95c5e940f538efedaa1f68ab6c584ad4ca1bb0596fa215366ad1e5e397e96"
    );
}

#[test]
fn fingerprints_of_distinct_keys_differ() {
    let keys = [
        "C:\\apps\\tool.exe",
        "C:\\apps\\tool.ex",
        "c:\\apps\\tool.exe",
        "C:\\apps\\res.dll:3",
        "C:\\apps\\res.dll:4",
        "",
        " ",
    ];
    for (i, a) in keys.iter().enumerate() {
        let fa = fingerprint(a);
        assert_eq!(fa.len(), 64);
        assert!(fa.chars().all(|c| c.is_ascii_digit() || ('a'..='f').contains(&c)));
        for b in keys.iter().skip(i + 1) {
            assert_ne!(fa, fingerprint(b));
        }
    }
}

#[test]
fn cache_entry_is_fingerprint_png() {
    assert_eq!(
        cache_entry_name("C:\\apps\\res.dll:3"),
        "6d0c215c5e915259510570b9be7967d795d7f50ef1bbe15a7168d947bf4e3820.png"
    );
}

#[test]
fn data_url_pads_base64() {
    assert_eq!(png_data_url(b"Man"), "data:image/png;base64,TWFu");
    assert_eq!(png_data_url(b"Ma"), "data:image/png;base64,TWE=");
    assert_eq!(png_data_url(b"M"), "data:image/png;base64,TQ==");
    assert_eq!(png_data_url(&[0, 255, 16, 128]), "data:image/png;base64,AP8QgA==");
    assert_eq!(png_data_url(&[]), "data:image/png;base64,");
}

#[test]
fn bgra_pixels_become_rgba() {
    let mut px = vec![1, 2, 3, 4, 5, 6, 7, 8];
    bgra_to_rgba(&mut px);
    assert_eq!(px, vec![3, 2, 1, 4, 7, 6, 5, 8]);
    let mut tail3 = vec![1, 2, 3, 4, 9, 8, 7];
    bgra_to_rgba(&mut tail3);
    assert_eq!(tail3, vec![3, 2, 1, 4, 7, 8, 9]);
    let mut tail2 = vec![1, 2, 3, 4, 9, 8];
    bgra_to_rgba(&mut tail2);
    assert_eq!(tail2, vec![3, 2, 1, 4, 9, 8]);
    let mut empty: Vec<u8> = vec![];
    bgra_to_rgba(&mut empty);
    assert!(empty.is_empty());
}

#[test]
fn encoded_icon_decodes_to_rgba_pixels() {
    // one blue pixel then one red pixel, in native B, G, R, A order
    let bgra = vec![255, 0, 0, 255, 0, 0, 255, 128];
    let png = encode_icon_png(2, 1, bgra).expect("encodes");
    assert!(is_png(&png));
    let img = image::load_from_memory(&png).expect("decodes").to_rgba8();
    assert_eq!(img.width(), 2);
    assert_eq!(img.height(), 1);
    assert_eq!(img.into_raw(), vec![0, 0, 255, 255, 255, 0, 0, 128]);
}

#[test]
fn mismatched_pixel_buffer_is_rejected() {
    assert_eq!(encode_icon_png(2, 2, vec![0; 15]), Err(ExtractError::DimensionMismatch));
    assert_eq!(encode_icon_png(2, 2, vec![0; 17]), Err(ExtractError::DimensionMismatch));
    assert_eq!(encode_icon_png(-1, 2, vec![]), Err(ExtractError::DimensionMismatch));
    assert_eq!(encode_icon_png(1, -2, vec![0; 8]), Err(ExtractError::DimensionMismatch));
}

const SIGNATURE: [u8; 8] = [137, 80, 78, 71, 13, 10, 26, 10];
const IEND: [u8; 12] = [0, 0, 0, 0, 73, 69, 78, 68, 174, 66, 96, 130];

#[test]
fn png_frame_is_checked() {
    let framed = [&SIGNATURE[..], &IEND[..]].concat();
    assert!(is_png(&framed));
    let padded = [&SIGNATURE[..], &[1, 2, 3][..], &IEND[..]].concat();
    assert!(is_png(&padded));
    assert!(!is_png(&SIGNATURE));
    assert!(!is_png(&[137, 80, 78, 71, 13, 10, 26]));
    assert!(!is_png(b"garbage!garbage!"));
    assert!(!is_png(&[]));
}

#[test]
fn nul_padding_is_trimmed() {
    assert_eq!(trim_nul("\0\0abc\0\0"), "abc");
    assert_eq!(trim_nul("a\0b"), "a\0b");
    assert_eq!(trim_nul("\0\0\0"), "");
    assert_eq!(trim_nul(""), "");
}

#[test]
fn utf16_buffer_text_drops_padding() {
    let mut buf = [0u16; 260];
    for (i, u) in "C:\\apps\\app.exe".encode_utf16().enumerate() {
        buf[i] = u;
    }
    assert_eq!(buffer_text(&buf), "C:\\apps\\app.exe");
    assert_eq!(buffer_text(&[0u16; 1024]), "");
    let info = ShortcutInfo::from_buffers(&buf, &[0u16; 1024], &[0u16; 260], &[0u16; 260], 0);
    assert_eq!(info.target, "C:\\apps\\app.exe");
    assert_eq!(info.arguments, "");
    assert_eq!(info.working_dir, "");
    assert_eq!(info.icon_path, "");
    assert_eq!(info.icon_index, 0);
}

#[test]
fn resource_key_joins_path_and_index() {
    assert_eq!(resource_key("C:\\apps\\res.dll", 3), "C:\\apps\\res.dll:3");
    assert_eq!(resource_key("icons.dll", 0), "icons.dll:0");
    assert_eq!(resource_key("icons.dll", -12), "icons.dll:-12");
    assert_eq!(resource_key("x", i32::MIN), "x:-2147483648");
    assert_eq!(resource_key("x", i32::MAX), "x:2147483647");
    let mut s = String::from("n=");
    push_decimal(&mut s, 1090);
    assert_eq!(s, "n=1090");
}

#[test]
fn link_suffix_ignores_case() {
    assert!(is_link_path("C:\\Users\\x\\Desktop\\App.lnk"));
    assert!(is_link_path("a.LNK"));
    assert!(is_link_path(".LnK"));
    assert!(!is_link_path("lnk"));
    assert!(!is_link_path("C:\\apps\\tool.exe"));
    assert!(!is_link_path("C:\\apps\\tool.lnk.exe"));
}

#[test]
fn truncated_png_is_not_a_file() {
    let png = encode_icon_png(2, 2, vec![9; 16]).expect("encodes");
    assert!(is_png(&png));
    assert!(!is_png(&png[..png.len() - 1]));
    assert!(!is_png(&png[..png.len() / 2]));
}

#[test]
fn empty_image_fails_to_encode() {
    assert!(matches!(encode_icon_png(0, 3, vec![]), Err(ExtractError::Encode(_))));
    assert!(matches!(encode_icon_png(3, 0, vec![]), Err(ExtractError::Encode(_))));
    assert!(encode_icon_png(1, 1, vec![1, 2, 3, 4]).is_ok());
}

#[test]
fn error_messages() {
    assert_eq!(ExtractError::NotFound("C:\\x.exe".to_string()).message(), "Failed to get file info for C:\\x.exe");
    assert_eq!(
        ExtractError::NoIcon("C:\\apps\\res.dll".to_string(), -3).message(),
        "Failed to extract icon from C:\\apps\\res.dll at index -3"
    );
    assert_eq!(ExtractError::InvalidHandle.message(), "Invalid icon handle");
    assert_eq!(ExtractError::IconInfo.message(), "Failed to get icon info");
    assert_eq!(ExtractError::InvalidColorBitmap.message(), "Invalid color bitmap");
    assert_eq!(ExtractError::BitmapQuery.message(), "Failed to get bitmap object");
    assert_eq!(ExtractError::PixelDump.message(), "Failed to get DIB bits");
    assert_eq!(ExtractError::DimensionMismatch.message(), "Failed to create image buffer");
    assert_eq!(ExtractError::Encode("bad".to_string()).message(), "bad");
    assert_eq!(ExtractError::Unsupported.message(), "Icon extraction is only supported on Windows");
}

#[test]
fn link_suffix_follows_full_lowercasing() {
    // KELVIN SIGN lowercases to an ASCII 'k'
    assert!(is_link_path("C:\\x\\App.ln\u{212A}"));
    assert!(is_link_path("C:\\x\\APP.LNK"));
}

#[test]
fn supplementary_characters_use_surrogate_pairs() {
    let (_, call) = extract_icon_from_resource("a\u{1F600}", 0);
    match call {
        NativeCall::ResourceIcon(buf, _, _) => assert_eq!(&buf[..4], &[0x61, 0xD83D, 0xDE00, 0]),
        other => panic!("unexpected {:?}", other),
    }
    assert_eq!(buffer_text(&[0x61, 0xD83D, 0xDE00, 0, 0]), "a\u{1F600}");
    assert_eq!(buffer_text(&[0xD83D, 0x62, 0]), "\u{FFFD}b");
}

#[test]
fn only_decodable_png_is_usable() {
    let png = encode_icon_png(3, 2, vec![7; 24]).expect("encodes");
    assert!(usable_png(&png));
    let frame = [&SIGNATURE[..], &IEND[..]].concat();
    assert!(is_png(&frame));
    assert!(!usable_png(&frame));
    let mut bad = png.clone();
    let mid = bad.len() / 2;
    bad[mid] ^= 0xFF;
    assert!(!usable_png(&bad));
    assert!(!usable_png(b"garbage bytes that are long enough"));
}
