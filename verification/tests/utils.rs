use genshin_force_fps::error::ErrorKind;
use genshin_force_fps::process::find_module;
use genshin_force_fps::utils::{str_to_w_vec, w_to_str};

#[test]
fn str_to_w_vec_appends_the_nul() {
    assert_eq!(str_to_w_vec(""), vec![0]);
    assert_eq!(str_to_w_vec("ab"), vec![0x61, 0x62, 0]);
}

#[test]
fn str_to_w_vec_encodes_as_std_does() {
    for text in ["UnityPlayer.dll", "SOFTWARE\\miHoYo\\\u{539f}\u{795e}", "\u{1F600}x\u{10FFFF}\u{FFFF}\u{10000}\u{D7FF}\u{E000}"] {
        let mut expected: Vec<u16> = text.encode_utf16().collect();
        expected.push(0);
        assert_eq!(str_to_w_vec(text), expected);
    }
}

#[test]
fn str_to_w_vec_splits_a_character_beyond_the_basic_plane() {
    assert_eq!(str_to_w_vec("\u{1F600}"), vec![0xD83D, 0xDE00, 0]);
    assert_eq!(str_to_w_vec("\u{10000}"), vec![0xD800, 0xDC00, 0]);
    assert_eq!(str_to_w_vec("\u{10FFFF}"), vec![0xDBFF, 0xDFFF, 0]);
}

#[test]
fn w_to_str_stops_at_the_first_nul() {
    assert_eq!(w_to_str(&[0x61, 0x62, 0, 0x63, 0]), "ab");
    assert_eq!(w_to_str(&[0, 0x61]), "");
    assert_eq!(w_to_str(&[]), "");
    assert_eq!(w_to_str(&[0x61, 0x62]), "ab");
}

#[test]
fn w_to_str_joins_surrogate_pairs() {
    assert_eq!(w_to_str(&[0xD83D, 0xDE00, 0x78, 0]), "\u{1F600}x");
    assert_eq!(w_to_str(&[0xDBFF, 0xDFFF]), "\u{10FFFF}");
}

#[test]
fn w_to_str_replaces_lone_surrogates() {
    assert_eq!(w_to_str(&[0xD800, 0x61]), "\u{FFFD}a");
    assert_eq!(w_to_str(&[0xDC00, 0x61]), "\u{FFFD}a");
    assert_eq!(w_to_str(&[0x61, 0xD800]), "a\u{FFFD}");
    assert_eq!(w_to_str(&[0xD800, 0xD800, 0xDC00]), "\u{FFFD}\u{10000}");
    assert_eq!(w_to_str(&[0xDC00, 0xD800]), "\u{FFFD}\u{FFFD}");
    assert_eq!(w_to_str(&[0xD800, 0, 0xDC00]), "\u{FFFD}");
}

#[test]
fn w_to_str_decodes_as_std_does() {
    let mut seed = 0x9E3779B97F4A7C15u64;
    for _ in 0..2000 {
        let mut units = Vec::new();
        for _ in 0..6 {
            seed ^= seed << 13;
            seed ^= seed >> 7;
            seed ^= seed << 17;
            let unit = match seed % 5 {
                0 => 0xD800 + (seed >> 8) % 0x400,
                1 => 0xDC00 + (seed >> 8) % 0x400,
                2 => 1 + (seed >> 8) % 0x7F,
                _ => 1 + (seed >> 8) % 0xFFFF,
            };
            units.push(unit as u16);
        }
        assert_eq!(w_to_str(&units), String::from_utf16_lossy(&units));
    }
}

#[test]
fn w_to_str_undoes_str_to_w_vec() {
    for text in ["", "GenshinImpact.exe", "\u{539f}\u{795e}", "a\u{1F600}b"] {
        assert_eq!(w_to_str(&str_to_w_vec(text)), text);
    }
}

#[test]
fn find_module_takes_the_first_of_that_name() {
    let names = vec![
        str_to_w_vec("GenshinImpact.exe"),
        str_to_w_vec("UnityPlayer.dll"),
        str_to_w_vec("UserAssembly.dll"),
        str_to_w_vec("UnityPlayer.dll"),
    ];
    assert_eq!(find_module(&names, "UnityPlayer.dll"), Ok(1));
    assert_eq!(find_module(&names, "UserAssembly.dll"), Ok(2));
    assert_eq!(find_module(&names, "GenshinImpact.exe"), Ok(0));
}

#[test]
fn find_module_compares_case_and_every_character() {
    let names = vec![str_to_w_vec("unityplayer.dll"), str_to_w_vec("UnityPlayer.dll.bak"), str_to_w_vec("UnityPlayer")];
    assert_eq!(find_module(&names, "UnityPlayer.dll"), Err(ErrorKind::ModuleNotFound));
    assert_eq!(find_module(&[].to_vec(), "UnityPlayer.dll"), Err(ErrorKind::ModuleNotFound));
}

#[test]
fn find_module_reads_a_name_buffer_up_to_its_nul() {
    let mut buffer = vec![0u16; 260];
    for (i, unit) in "UserAssembly.dll".encode_utf16().enumerate() {
        buffer[i] = unit;
    }
    buffer[40] = 0x41;
    assert_eq!(find_module(&vec![vec![0u16; 260], buffer], "UserAssembly.dll"), Ok(1));
    assert_eq!(find_module(&vec![vec![0u16; 260]], ""), Ok(0));
}
