use grob::{WindowsPathString, WindowsString, WindowsStringError};

#[test]
fn zero_sized_stack_buffer_works() {
    let ws = WindowsString::<0>::new("").unwrap();
    assert!(ws.as_wide()[0] == 0);
    assert_eq!(ws.as_wide().len(), 1);
}

#[test]
fn one_byte_stack_buffer_works() {
    let ws = WindowsString::<1>::new("").unwrap();
    assert!(ws.as_wide()[0] == 0);
    assert_eq!(ws.as_wide().len(), 1);
}

fn test_string() -> String {
    let raw = &[
        0xF0u8, 0x9F, 0x99, 0x88, 0xF0, 0x9F, 0x99, 0x89, 0xF0, 0x9F, 0x99, 0x8A,
    ];
    std::str::from_utf8(raw).unwrap().to_string()
}

#[test]
fn just_fits_on_stack() {
    let ts = test_string();
    let ws = WindowsString::<13>::new(&ts).unwrap();
    let p = ws.as_wide();
    assert!(p[0] == 0xD83D);
    assert!(p[1] == 0xDE48);
    assert!(p[2] == 0xD83D);
    assert!(p[3] == 0xDE49);
    assert!(p[4] == 0xD83D);
    assert!(p[5] == 0xDE4A);
    assert!(p[6] == 0x0000);
}

#[test]
fn does_not_quite_fit_on_stack() {
    let ts = test_string();
    let ws = WindowsString::<12>::new(&ts).unwrap();
    let p = ws.as_wide();
    assert!(p[0] == 0xD83D);
    assert!(p[1] == 0xDE48);
    assert!(p[2] == 0xD83D);
    assert!(p[3] == 0xDE49);
    assert!(p[4] == 0xD83D);
    assert!(p[5] == 0xDE4A);
    assert!(p[6] == 0x0000);
}

fn mimic_os(s: &[u16]) -> u32 {
    let mut rv = 0;
    loop {
        if s[rv as usize] == 0 {
            return rv;
        }
        rv += 1;
    }
}

#[test]
fn is_ergonomic_and_safe() {
    let ts = test_string();

    let ws = WindowsString::<13>::new(&ts).unwrap();
    let len = mimic_os(ws.as_wide());
    assert!(len == 6);

    let ws = WindowsString::<12>::new(&ts).unwrap();
    let len = mimic_os(ws.as_wide());
    assert!(len == 6);

    let ws = WindowsString::<0>::new(&ts).unwrap();
    let len = mimic_os(ws.as_wide());
    assert!(len == 6);
}

#[test]
fn a_text_is_followed_by_its_terminator() {
    for text in ["", "a", "Zathras", "C:\\Whatever\\a\\b\\c\\d.txt", "\u{e9}\u{4e2d}\u{10348}\u{ffff}"] {
        let expected: Vec<u16> = text.encode_utf16().chain(std::iter::once(0)).collect();
        assert_eq!(WindowsString::<0>::new(text).unwrap().as_wide(), &expected[..]);
        assert_eq!(WindowsString::<4>::new(text).unwrap().as_wide(), &expected[..]);
        assert_eq!(WindowsString::<8>::new(text).unwrap().as_wide(), &expected[..]);
        assert_eq!(WindowsString::<64>::new(text).unwrap().as_wide(), &expected[..]);
        assert_eq!(WindowsPathString::new(text).unwrap().as_wide(), &expected[..]);
        let units: Vec<u16> = text.encode_utf16().collect();
        assert_eq!(WindowsString::<0>::from_wide(&units).unwrap().as_wide(), &expected[..]);
        assert_eq!(WindowsString::<8>::from_wide(&units).unwrap().as_wide(), &expected[..]);
        assert_eq!(WindowsString::<64>::from_wide(&units).unwrap().as_wide(), &expected[..]);
    }
}

#[test]
fn a_nul_within_a_text_is_an_error() {
    for text in ["\0", "a\0", "\0a", "abc\0def"] {
        assert_eq!(WindowsString::<0>::new(text).err(), Some(WindowsStringError::InteriorNul));
        assert_eq!(WindowsString::<64>::new(text).err(), Some(WindowsStringError::InteriorNul));
        assert_eq!(WindowsPathString::new(text).err(), Some(WindowsStringError::InteriorNul));
        let units: Vec<u16> = text.encode_utf16().collect();
        assert_eq!(
            WindowsString::<0>::from_wide(&units).err(),
            Some(WindowsStringError::InteriorNul)
        );
        assert_eq!(
            WindowsString::<64>::from_wide(&units).err(),
            Some(WindowsStringError::InteriorNul)
        );
    }
}

#[test]
fn code_units_that_are_no_text_are_taken_as_they_are() {
    let units = [0x61u16, 0xD800, 0x7A];
    let ws = WindowsString::<2>::from_wide(&units).unwrap();
    assert_eq!(ws.as_wide(), &[0x61u16, 0xD800, 0x7A, 0][..]);
    let ws = WindowsString::<4>::from_wide(&units).unwrap();
    assert_eq!(ws.as_wide(), &[0x61u16, 0xD800, 0x7A, 0][..]);
}
