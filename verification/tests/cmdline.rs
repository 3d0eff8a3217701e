use krunkit::cmdline::check_required_args;
use krunkit::cmdline::check_unknown_args;
use krunkit::cmdline::parse_args;
use krunkit::cmdline::parse_boolean;
use krunkit::cmdline::ParsedArgs;
use krunkit::error::Error;
use krunkit::text::decimal_string;
use krunkit::text::parse_i32_str;
use krunkit::text::parse_u16;
use krunkit::text::parse_u32;
use krunkit::text::split_str;
use krunkit::text::str_eq_ignore_case;

#[test]
fn virtio_blk_argument_ordering() {
    let in_order = parse_args(String::from("path=/Users/user/disk-image.raw,format=raw")).unwrap();
    let out_of_order =
        parse_args(String::from("format=raw,path=/Users/user/disk-image.raw")).unwrap();

    let mut expected = ParsedArgs::new();
    expected.insert("path".to_string(), "/Users/user/disk-image.raw".to_string());
    expected.insert("format".to_string(), "raw".to_string());

    assert_eq!(in_order, out_of_order);
    assert_eq!(in_order, expected);
}

#[test]
fn virtio_net_argument_ordering() {
    let in_order = parse_args(String::from(
        "unixSocketPath=/Users/user/vm-network.sock,mac=ff:ff:ff:ff:ff:ff",
    ))
    .unwrap();
    let out_of_order = parse_args(String::from(
        "mac=ff:ff:ff:ff:ff:ff,unixSocketPath=/Users/user/vm-network.sock",
    ))
    .unwrap();

    let mut expected = ParsedArgs::new();
    expected.insert(
        "unixSocketPath".to_string(),
        "/Users/user/vm-network.sock".to_string(),
    );
    expected.insert("mac".to_string(), "ff:ff:ff:ff:ff:ff".to_string());

    assert_eq!(in_order, out_of_order);
    assert_eq!(in_order, expected);
}

#[test]
fn virtio_vsock_argument_ordering() {
    let in_order = parse_args(String::from(
        "port=1025,socketURL=/Users/user/vsock2.sock,listen",
    ))
    .unwrap();
    let out_of_order = parse_args(String::from(
        "port=1025,listen,socketURL=/Users/user/vsock2.sock",
    ))
    .unwrap();

    let mut expected = ParsedArgs::new();
    expected.insert("port".to_string(), "1025".to_string());
    expected.insert(
        "socketURL".to_string(),
        "/Users/user/vsock2.sock".to_string(),
    );
    expected.insert("listen".to_string(), String::new());

    assert_eq!(in_order, out_of_order);
    assert_eq!(in_order, expected);
}

#[test]
fn virtio_fs_argument_ordering() {
    let in_order = parse_args(String::from(
        "sharedDir=/Users/user/shared-dir,mountTag=MOUNT_TAG",
    ))
    .unwrap();
    let out_of_order = parse_args(String::from(
        "mountTag=MOUNT_TAG,sharedDir=/Users/user/shared-dir",
    ))
    .unwrap();

    let mut expected = ParsedArgs::new();
    expected.insert(
        "sharedDir".to_string(),
        "/Users/user/shared-dir".to_string(),
    );
    expected.insert("mountTag".to_string(), "MOUNT_TAG".to_string());

    assert_eq!(in_order, out_of_order);
    assert_eq!(in_order, expected);
}

#[test]
fn virtio_gpu_argument_ordering() {
    let in_order = parse_args(String::from("height=50,width=25")).unwrap();
    let out_of_order = parse_args(String::from("width=25,height=50")).unwrap();

    let mut expected = ParsedArgs::new();
    expected.insert("height".to_string(), "50".to_string());
    expected.insert("width".to_string(), "25".to_string());

    assert_eq!(in_order, out_of_order);
    assert_eq!(in_order, expected);
}

#[test]
fn argument_parsing() {
    let s = String::from("port=1025,socketURL=/Users/user/vsock2.sock,listen");
    let args = parse_args(s).unwrap();

    let mut expected = ParsedArgs::new();
    expected.insert("port".to_string(), "1025".to_string());
    expected.insert(
        "socketURL".to_string(),
        "/Users/user/vsock2.sock".to_string(),
    );
    expected.insert("listen".to_string(), String::new());
    assert_eq!(expected, args);
}

#[test]
fn required_args() {
    let required = &["port", "socketURL"];
    let s = String::from("port=1025,socketURL=/Users/user/vsock2.sock,listen");
    let args = parse_args(s).unwrap();

    assert_eq!(check_required_args(&args, "", required).is_ok(), true);

    let required = &["port", "wrong"];
    assert_ne!(check_required_args(&args, "", required).is_ok(), true);
}

#[test]
fn unknown_args() {
    let args = ParsedArgs::new();
    assert_eq!(check_unknown_args(args, "").is_ok(), true);

    let mut args = ParsedArgs::new();
    args.insert("foo".to_string(), "bar".to_string());
    assert_ne!(check_unknown_args(args, "").is_ok(), true);
}

#[test]
fn parsing_is_order_independent() {
    let a = parse_args(String::from("a=1,b=2")).unwrap();
    let b = parse_args(String::from("b=2,a=1")).unwrap();
    assert_eq!(a, b);
    assert!(a.same_mapping(&b));
    assert_eq!(a.len(), 2);
    assert_eq!(a.get("a"), Some(&"1".to_string()));
    assert_eq!(a.get("b"), Some(&"2".to_string()));
    let c = parse_args(String::from("a=1,b=3")).unwrap();
    assert_ne!(a, c);
    let d = parse_args(String::from("a=1")).unwrap();
    assert_ne!(a, d);
    assert_ne!(d, a);
}

#[test]
fn parsing_keeps_the_order_given() {
    let a = parse_args(String::from("x=1,flag,y=")).unwrap();
    assert_eq!(
        a.entries,
        vec![
            ("x".to_string(), "1".to_string()),
            ("flag".to_string(), String::new()),
            ("y".to_string(), String::new()),
        ]
    );
}

#[test]
fn duplicate_key_is_rejected() {
    assert_eq!(
        parse_args(String::from("a=1,b=2,a=3")).err(),
        Some(Error::DuplicateKey {
            key: "a".to_string(),
            arg: "a=3".to_string()
        })
    );
    assert_eq!(
        parse_args(String::from("listen,listen")).err(),
        Some(Error::DuplicateKey {
            key: "listen".to_string(),
            arg: "listen".to_string()
        })
    );
    assert_eq!(
        parse_args(String::from("a=1,a=1")).err().unwrap().message(),
        "argument a=1 is only expected once"
    );
}

#[test]
fn token_with_two_equals_signs_is_rejected() {
    let e = parse_args(String::from("a=b=c")).err().unwrap();
    assert_eq!(
        e,
        Error::InvalidArgumentFormat {
            arg: "a=b=c".to_string()
        }
    );
    assert_eq!(e.message(), "invalid argument format: a=b=c");
    // the first offending token decides
    assert_eq!(
        parse_args(String::from("k=1,k=2,a=b=c")).err(),
        Some(Error::DuplicateKey {
            key: "k".to_string(),
            arg: "k=2".to_string()
        })
    );
}

#[test]
fn empty_string_is_one_empty_flag() {
    let a = parse_args(String::new()).unwrap();
    assert_eq!(a.entries, vec![(String::new(), String::new())]);
    assert!(a.contains_key(""));
}

#[test]
fn missing_argument_names_the_first_missing_key() {
    let args = parse_args(String::from("b=1")).unwrap();
    let e = check_required_args(&args, "dev", &["a", "b", "c"]).err().unwrap();
    assert_eq!(
        e,
        Error::MissingArgument {
            label: "dev".to_string(),
            key: "a".to_string()
        }
    );
    assert_eq!(e.message(), "dev is missing argument: a");
    let e = check_required_args(&args, "dev", &["b", "c", "a"]).err().unwrap();
    assert_eq!(e.message(), "dev is missing argument: c");
}

#[test]
fn unknown_arguments_are_all_listed() {
    let args = parse_args(String::from("foo=bar,baz,x=y")).unwrap();
    let e = check_unknown_args(args, "virtio-x").err().unwrap();
    assert_eq!(
        e,
        Error::UnknownArguments {
            label: "virtio-x".to_string(),
            args: vec!["foo=bar".to_string(), "baz=".to_string(), "x=y".to_string()]
        }
    );
    assert_eq!(
        e.message(),
        "unknown virtio-x arguments: [\"foo=bar\", \"baz=\", \"x=y\"]"
    );
}

#[test]
fn remove_takes_one_key_out() {
    let mut args = parse_args(String::from("a=1,b=2,c=3")).unwrap();
    assert_eq!(args.remove("b"), Some("2".to_string()));
    assert_eq!(args.remove("b"), None);
    assert_eq!(
        args.entries,
        vec![
            ("a".to_string(), "1".to_string()),
            ("c".to_string(), "3".to_string())
        ]
    );
    assert_eq!(args.insert("a".to_string(), "9".to_string()), Some("1".to_string()));
    assert_eq!(args.get("a"), Some(&"9".to_string()));
    assert_eq!(args.len(), 2);
    assert!(!args.is_empty());
    assert!(args.contains_pair("c", "3"));
    assert!(!args.contains_pair("c", "4"));
}

#[test]
fn booleans() {
    assert_eq!(parse_boolean("true"), Ok(true));
    assert_eq!(parse_boolean("on"), Ok(true));
    assert_eq!(parse_boolean("false"), Ok(false));
    assert_eq!(parse_boolean("off"), Ok(false));
    let e = parse_boolean("yes").err().unwrap();
    assert_eq!(
        e,
        Error::InvalidBoolean {
            value: "yes".to_string()
        }
    );
    assert_eq!(e.message(), "invalid boolean value yes");
    assert!(parse_boolean("True").is_err());
    assert!(parse_boolean("").is_err());
}

#[test]
fn splitting() {
    assert_eq!(split_str("a,b,,c", ','), vec!["a", "b", "", "c"]);
    assert_eq!(split_str("", ','), vec![""]);
    assert_eq!(split_str(",", ','), vec!["", ""]);
    assert_eq!(split_str("abc", ','), vec!["abc"]);
    assert_eq!(split_str("é,ü", ','), vec!["é", "ü"]);
}

#[test]
fn numbers() {
    assert_eq!(parse_u32("0"), Some(0));
    assert_eq!(parse_u32("007"), Some(7));
    assert_eq!(parse_u32("+42"), Some(42));
    assert_eq!(parse_u32("4294967295"), Some(u32::MAX));
    assert_eq!(parse_u32("4294967296"), None);
    assert_eq!(parse_u32("99999999999999999999999999"), None);
    assert_eq!(parse_u32(""), None);
    assert_eq!(parse_u32("+"), None);
    assert_eq!(parse_u32("-1"), None);
    assert_eq!(parse_u32("12a"), None);
    assert_eq!(parse_u32(" 12"), None);
    assert_eq!(parse_u16("65535"), Some(65535));
    assert_eq!(parse_u16("65536"), None);
    assert_eq!(parse_i32_str("4"), Some(4));
    assert_eq!(parse_i32_str("-1"), Some(-1));
    assert_eq!(parse_i32_str("-0"), Some(0));
    assert_eq!(parse_i32_str("+7"), Some(7));
    assert_eq!(parse_i32_str("2147483647"), Some(i32::MAX));
    assert_eq!(parse_i32_str("2147483648"), None);
    assert_eq!(parse_i32_str("-2147483648"), Some(i32::MIN));
    assert_eq!(parse_i32_str("-2147483649"), None);
    assert_eq!(parse_i32_str("-"), None);
    assert_eq!(parse_i32_str("--1"), None);
    assert_eq!(parse_i32_str("-+1"), None);
    assert_eq!(decimal_string(0), "0");
    assert_eq!(decimal_string(10), "10");
    assert_eq!(decimal_string(4294967295), "4294967295");
    assert_eq!(
        decimal_string(u128::MAX),
        "340282366920938463463374607431768211455"
    );
}

#[test]
fn case_insensitive_comparison() {
    assert!(str_eq_ignore_case("QCOW2", "qcow2"));
    assert!(str_eq_ignore_case("Raw", "raw"));
    assert!(!str_eq_ignore_case("raw ", "raw"));
    assert!(!str_eq_ignore_case("r@w", "raw"));
}

#[test]
fn numbers_agree_with_the_standard_parsers() {
    let inputs = [
        "", "0", "00", "1", "+1", "-1", "+", "-", "+-1", "-+1", "++1", " 1", "1 ", "1_000", "0x10",
        "255", "256", "65535", "65536", "2147483647", "2147483648", "-2147483648", "-2147483649",
        "4294967295", "4294967296", "18446744073709551615", "18446744073709551616",
        "99999999999999999999999999999999999999999", "-0", "+0", "１２", "1e3", "1.0", "٣",
    ];
    for input in inputs {
        assert_eq!(parse_u32(input), input.parse::<u32>().ok(), "{input:?}");
        assert_eq!(parse_u16(input), input.parse::<u16>().ok(), "{input:?}");
        assert_eq!(parse_i32_str(input), input.parse::<i32>().ok(), "{input:?}");
    }
    for n in [0u128, 7, 9, 10, 11, 99, 100, 1024, 65535, 4294967295, 1 << 64, u128::MAX] {
        assert_eq!(decimal_string(n), n.to_string());
    }
}

#[test]
fn case_folding_agrees_with_lowercasing() {
    let inputs = [
        "raw", "RAW", "Raw", "rAw", "qcow2", "QCOW2", "QcOw2", "raw ", " raw", "ra", "raww", "",
        "ｒａｗ", "r\u{00c4}w", "ra\u{0307}w", "listen", "LISTEN", "LİSTEN", "liſten", "efi", "EFİ",
        "create", "CREATE", "\u{212a}", "qcow\u{00b2}",
    ];
    for input in inputs {
        for word in ["raw", "qcow2", "listen", "efi", "create"] {
            assert_eq!(
                str_eq_ignore_case(input, word),
                input.to_lowercase() == word,
                "{input:?} {word:?}"
            );
        }
    }
}
