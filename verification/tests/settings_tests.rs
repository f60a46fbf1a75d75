use yaffe::settings::{lines, parse_i32, parse_setting_line, render_setting_line, SettingLoadError, SettingText};
use yaffe::system::StartupError;

fn chars(s: &str) -> Vec<char> {
    s.chars().collect()
}

#[test]
fn lines_split_like_str_lines() {
    assert_eq!(lines("a\nb\r\nc"), vec!["a", "b", "c"]);
    assert_eq!(lines("a\n\nb\n"), vec!["a", "", "b"]);
    assert_eq!(lines(""), Vec::<String>::new());
    assert_eq!(lines("x\r"), vec!["x\r"]);
    let text = "items_per_row: i32 = 4\r\n# comment\n\nfont_color: color = 1,1,1,1\n";
    let expected: Vec<String> = text.lines().map(String::from).collect();
    assert_eq!(lines(text), expected);
}

#[test]
fn parse_integers() {
    assert_eq!(parse_i32(&chars("42")), Some(42));
    assert_eq!(parse_i32(&chars("-17")), Some(-17));
    assert_eq!(parse_i32(&chars("+8")), Some(8));
    assert_eq!(parse_i32(&chars("2147483647")), Some(i32::MAX));
    assert_eq!(parse_i32(&chars("-2147483648")), Some(i32::MIN));
    assert_eq!(parse_i32(&chars("2147483648")), None);
    assert_eq!(parse_i32(&chars("99999999999999999999")), None);
    assert_eq!(parse_i32(&chars("")), None);
    assert_eq!(parse_i32(&chars("-")), None);
    assert_eq!(parse_i32(&chars("1 2")), None);
    assert_eq!(parse_i32(&chars("0x10")), None);
    for s in ["0", "-0", "+12", "007", "-2147483649", "12a", " 1"] {
        assert_eq!(parse_i32(&chars(s)), s.parse::<i32>().ok(), "{}", s);
    }
}

#[test]
fn parse_entries() {
    match parse_setting_line("items_per_row: i32 = 4") {
        Ok(Some(l)) => {
            assert_eq!(l.key, "items_per_row");
            assert!(matches!(l.value, SettingText::I32(4)));
        }
        _ => panic!("expected an entry"),
    }
    match parse_setting_line("  logging_level :str=  Info debug ") {
        Ok(Some(l)) => {
            assert_eq!(l.key, "logging_level");
            match l.value {
                SettingText::Str(v) => assert_eq!(v, "Info debug"),
                _ => panic!("expected text"),
            }
        }
        _ => panic!("expected an entry"),
    }
    match parse_setting_line("font_color: color = 0.9, 0.9, 0.9, 1") {
        Ok(Some(l)) => match l.value {
            SettingText::Color(v) => assert_eq!(v, "0.9, 0.9, 0.9, 1"),
            _ => panic!("expected a color"),
        },
        _ => panic!("expected an entry"),
    }
    match parse_setting_line("info_font_size: f32 = 24.5") {
        Ok(Some(l)) => match l.value {
            SettingText::F32(v) => assert_eq!(v, "24.5"),
            _ => panic!("expected a number"),
        },
        _ => panic!("expected an entry"),
    }
}

#[test]
fn comments_and_empty_lines_are_skipped() {
    assert!(matches!(parse_setting_line("# items_per_row: i32 = 4"), Ok(None)));
    assert!(matches!(parse_setting_line(""), Ok(None)));
}

#[test]
fn malformed_entries() {
    assert!(matches!(parse_setting_line("items_per_row i32 = 4"), Err(SettingLoadError::IncorrectFormat)));
    assert!(matches!(parse_setting_line("items_per_row: i32 4"), Err(SettingLoadError::IncorrectFormat)));
    assert!(matches!(parse_setting_line("a = b: str"), Err(SettingLoadError::IncorrectFormat)));
    assert!(matches!(parse_setting_line("items_per_row: int = 4"), Err(SettingLoadError::InvalidType)));
    assert!(matches!(parse_setting_line("items_per_row: i32 = four"), Err(SettingLoadError::InvalidValue)));
    assert!(matches!(parse_setting_line("   "), Err(SettingLoadError::IncorrectFormat)));
}

#[test]
fn written_entries_read_back() {
    let line = render_setting_line("logging_level", "str", "Info");
    assert_eq!(line, "logging_level: str = Info");
    match parse_setting_line(&line) {
        Ok(Some(l)) => {
            assert_eq!(l.key, "logging_level");
            match l.value {
                SettingText::Str(v) => assert_eq!(v, "Info"),
                _ => panic!("expected text"),
            }
        }
        _ => panic!("expected an entry"),
    }
    let line = render_setting_line("items_per_row", "i32", "-3");
    assert!(matches!(parse_setting_line(&line), Ok(Some(l)) if matches!(l.value, SettingText::I32(-3))));
}

#[test]
fn written_file_splits_into_written_lines() {
    let entries = [("a", "str", "x = y"), ("b", "i32", "2")];
    let mut text = String::new();
    for (k, t, v) in entries.iter() {
        text.push_str(&render_setting_line(k, t, v));
        text.push('\n');
    }
    let read = lines(&text);
    assert_eq!(read, vec!["a: str = x = y", "b: i32 = 2"]);
}

#[test]
fn io_errors_convert() {
    let e: SettingLoadError = std::io::Error::new(std::io::ErrorKind::NotFound, "missing").into();
    assert!(matches!(e, SettingLoadError::IoError(_)));
    let s: StartupError = String::from("denied").into();
    assert!(matches!(s, StartupError::Other(m) if m == "denied"));
    let f: StartupError = std::io::Error::new(std::io::ErrorKind::Other, "x").into();
    assert!(matches!(f, StartupError::File(_)));
}
