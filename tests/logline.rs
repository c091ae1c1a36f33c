use cloudfront_logs::net::{IpAddr, Ipv4Addr, Ipv6Addr, SocketAddr};
use cloudfront_logs::num::{parse_duration, parse_u16, parse_u64};
use cloudfront_logs::parquet_schemata;
use cloudfront_logs::shared::{as_optional_str, is_sentinel, to_optional_string};
use cloudfront_logs::view::{checked, indexed, smart};
use cloudfront_logs::{
    validate_line, Addressable, CheckedRawLogLine, CsProtocol, CsProtocolVersion, DetailedEdgeResultType, Duration,
    EdgeResultType, ForwardedForAddrs, OwningUnvalidatedRawLogline, OwningValidatedRawLogline, SimpleLogLine,
    SslProtocol, Time, TypedLogLine, UnvalidatedRawLogline, UnvalidatedTimeLogline, ValidatedTimeLogline, Date, UnvalidatedSimpleLogline, ValidatedRawLogline, ValidatedSimpleLogline,
};
use parquet::schema::parser::parse_message_type;

const SINGLE_LOG_LINE: &str = "2019-12-04\t21:02:31\tLAX1\t392\t192.0.2.100\tGET\td111111abcdef8.cloudfront.net\t/index.html\t200\t-\tMozilla/5.0%20(Windows%20NT%2010.0;%20Win64;%20x64)%20AppleWebKit/537.36%20(KHTML,%20like%20Gecko)%20Chrome/78.0.3904.108%20Safari/537.36\t-\t-\tHit\tSOX4xwn4XV6Q4rgb7XiVGOHms_BGlTAC4KyHmureZmBNrjGdRLiNIQ==\td111111abcdef8.cloudfront.net\thttps\t23\t0.001\t1.2.3.4, 5.6.7.8,\x209.10.11.12\tTLSv1.2\tECDHE-RSA-AES128-GCM-SHA256\tHit\tHTTP/2.0\t-\t-\t11040\t0.001\tHit\ttext/html\t78\t-\t-";

const DOCS_LINE: &str = "2019-12-04\t21:02:31\tLAX1\t392\t192.0.2.100\tGET\td111111abcdef8.cloudfront.net\t/index.html\t200\t-\tMozilla/5.0%20(Windows%20NT%2010.0;%20Win64;%20x64)%20AppleWebKit/537.36%20(KHTML,%20like%20Gecko)%20Chrome/78.0.3904.108%20Safari/537.36\t-\t-\tHit\tSOX4xwn4XV6Q4rgb7XiVGOHms_BGlTAC4KyHmureZmBNrjGdRLiNIQ==\td111111abcdef8.cloudfront.net\thttps\t23\t0.001\t-\tTLSv1.2\tECDHE-RSA-AES128-GCM-SHA256\tHit\tHTTP/2.0\t-\t-\t11040\t0.001\tHit\ttext/html\t78\t-\t-";

const ERROR_LINE: &str = "2019-12-13\t22:36:27\tSEA19-C1\t900\t192.0.2.200\tGET\td111111abcdef8.cloudfront.net\t/favicon.ico\t502\thttp://www.example.com/\tMozilla/5.0\t-\t-\tError\t1pkpNfBQ39sYMnjjUQjmH2w1wdJnbHYTbag21o_3OfcQgPzdL2RSSQ==\twww.example.com\thttp\t675\t0.102\t-\t-\t-\tError\tHTTP/1.1\t-\t-\t25260\t0.102\tOriginDnsError\ttext/html\t507\t-\t-";

fn replace_field(line: &str, index: usize, value: &str) -> String {
    let mut parts: Vec<&str> = line.split('\t').collect();
    parts[index] = value;
    parts.join("\t")
}

#[test]
fn readme_examples_borrow() {
    let logline: &str = SINGLE_LOG_LINE;
    let item = ValidatedRawLogline::try_from(logline).unwrap();

    assert_eq!(item.date, "2019-12-04");
    assert_eq!(item.sc_bytes, "392");
    assert_eq!(item.c_ip, "192.0.2.100");
}

#[test]
fn transformation_roundtrip() {
    let checked_line = CheckedRawLogLine::try_from(SINGLE_LOG_LINE).unwrap();
    let simple_line = SimpleLogLine::from_raw(&checked_line).unwrap();
    let typed_line = TypedLogLine::try_from(checked_line).unwrap();

    assert_eq!(simple_line.sc_bytes, typed_line.sc_bytes);
    assert_eq!(simple_line.cs_host, typed_line.cs_host);
    assert_eq!(simple_line.c_ip, typed_line.c_ip);
    assert_eq!(simple_line.x_forwarded_for, typed_line.x_forwarded_for);
}

#[test]
fn readme_examples_typed() {
    let logline: &str = SINGLE_LOG_LINE;
    let item = ValidatedTimeLogline::try_from(logline).unwrap();

    assert_eq!(item.date, Date::from_calendar_date(2019, 12, 4).unwrap());
    assert_eq!(item.time, Time::from_hms(21, 2, 31).unwrap());
    assert_eq!(item.time_taken, Duration::from_millis(1));
}

#[test]
fn typed_line_date_and_time_errors() {
    let line = replace_field(DOCS_LINE, 0, "2019-13-04");
    assert_eq!(ValidatedTimeLogline::from_text(&line).err(), Some("date invalid"));
    let line = replace_field(DOCS_LINE, 0, "2019-02-30");
    assert_eq!(ValidatedTimeLogline::from_text(&line).err(), Some("date invalid"));
    let line = replace_field(DOCS_LINE, 1, "24:00:00");
    assert_eq!(ValidatedTimeLogline::from_text(&line).err(), Some("time invalid"));
    let line = replace_field(DOCS_LINE, 3, "x");
    assert_eq!(ValidatedTimeLogline::from_text(&line).err(), Some("sc_bytes invalid"));
    let item = UnvalidatedTimeLogline::from_text(ERROR_LINE).unwrap();
    assert_eq!(item.date, Date::from_calendar_date(2019, 12, 13).unwrap());
    assert_eq!(item.datetime.time, Time::from_hms(22, 36, 27).unwrap());
    assert_eq!(item.cs_referer, Some("http://www.example.com/"));
    assert_eq!(item.ssl_cipher, None);
    assert_eq!(item.x_edge_detailed_result_type, DetailedEdgeResultType::OriginDnsError);
    let raw = ValidatedRawLogline::try_from(ERROR_LINE).unwrap();
    let from_raw = ValidatedTimeLogline::from_raw(&raw).unwrap();
    assert_eq!(from_raw.sc_bytes, 900);
    assert_eq!(from_raw.time_to_first_byte, Duration::from_millis(102));
}

#[test]
fn validate_parquet_schema_v0() {
    let schema = parquet_schemata::V0;
    let schema_t = parse_message_type(schema).unwrap();
    assert_eq!(schema_t.name(), "rust_schema");
}

#[test]
fn validate_parquet_schema_v1() {
    let schema = parquet_schemata::V1;
    let schema_t = parse_message_type(schema).unwrap();
    assert_eq!(schema_t.name(), "rust_schema");
}

#[test]
fn result_type_from_str_checks() {
    let input = "Hit";
    assert_eq!(EdgeResultType::try_from(input).unwrap(), EdgeResultType::Hit);

    let input = "Unknown";
    assert_eq!(
        EdgeResultType::try_from(input).unwrap(),
        EdgeResultType::Other(String::from(input))
    );
}

#[test]
fn result_type_to_str_checks() {
    let input = EdgeResultType::Hit;
    assert_eq!(input.to_string(), "Hit");

    let input = EdgeResultType::Other(String::from("Unknown"));
    assert_eq!(input.to_string(), "Unknown");
}

#[test]
fn x_forwarded_for_addrs_checks() {
    let input = "1.2.3.4";
    let addrs = ForwardedForAddrs::try_from(input).unwrap();
    assert_eq!(addrs.0.len(), 1);
    assert_eq!(addrs.0.first(), Some(&Addressable::IpAddr(IpAddr::V4(Ipv4Addr::new(1, 2, 3, 4)))));

    let input = "1.2.3.4, 5.6.7.8,\\x209.10.11.12";
    let addrs = ForwardedForAddrs::try_from(input).unwrap();
    assert_eq!(addrs.0.len(), 3);
    assert_eq!(addrs.0.first(), Some(&Addressable::IpAddr(IpAddr::V4(Ipv4Addr::new(1, 2, 3, 4)))));
    assert_eq!(addrs.0.get(1), Some(&Addressable::IpAddr(IpAddr::V4(Ipv4Addr::new(5, 6, 7, 8)))));
    assert_eq!(addrs.0.get(2), Some(&Addressable::IpAddr(IpAddr::V4(Ipv4Addr::new(9, 10, 11, 12)))));

    let input = "1.2.3.4,2001:db8:85a3:8d3:1319:8a2e:370:7348";
    let addrs = ForwardedForAddrs::try_from(input).unwrap();
    assert_eq!(addrs.0.len(), 2);
    assert_eq!(addrs.0.first(), Some(&Addressable::IpAddr(IpAddr::V4(Ipv4Addr::new(1, 2, 3, 4)))));
    assert_eq!(
        addrs.0.get(1),
        Some(&Addressable::IpAddr(IpAddr::V6(Ipv6Addr::new(
            0x2001, 0xdb8, 0x85a3, 0x8d3, 0x1319, 0x8a2e, 0x370, 0x7348
        ))))
    );

    let input = "1.2.3.4, 5.6.7.8:6969, 9.10.11.12, 2001:db8:85a3:8d3:1319:8a2e:370:7348";
    let addrs = ForwardedForAddrs::try_from(input).unwrap();
    assert_eq!(addrs.0.len(), 4);
    assert_eq!(addrs.0.first(), Some(&Addressable::IpAddr(IpAddr::V4(Ipv4Addr::new(1, 2, 3, 4)))));
    assert_eq!(
        addrs.0.get(1),
        Some(&Addressable::Socket(SocketAddr::new(IpAddr::V4(Ipv4Addr::new(5, 6, 7, 8)), 6969)))
    );
    assert_eq!(addrs.0.get(2), Some(&Addressable::IpAddr(IpAddr::V4(Ipv4Addr::new(9, 10, 11, 12)))));
    assert_eq!(
        addrs.0.get(3),
        Some(&Addressable::IpAddr(IpAddr::V6(Ipv6Addr::new(
            0x2001, 0xdb8, 0x85a3, 0x8d3, 0x1319, 0x8a2e, 0x370, 0x7348
        ))))
    );

    let input = "unknown";
    let addrs = ForwardedForAddrs::try_from(input).unwrap();
    assert_eq!(addrs.0.len(), 1);
    assert_eq!(addrs.0.first(), Some(&Addressable::Unknown));

    let input = "unknown,1.2.3.4";
    let addrs = ForwardedForAddrs::try_from(input).unwrap();
    assert_eq!(addrs.0.len(), 2);
    assert_eq!(addrs.0.first(), Some(&Addressable::Unknown));
    assert_eq!(addrs.0.get(1), Some(&Addressable::IpAddr(IpAddr::V4(Ipv4Addr::new(1, 2, 3, 4)))));

    let input = "0123.045.067.089";
    let addrs = ForwardedForAddrs::try_from(input).unwrap();
    assert_eq!(addrs.0.len(), 1);
    assert_eq!(addrs.0.first(), Some(&Addressable::IpAddr(IpAddr::V4(Ipv4Addr::new(123, 45, 67, 89)))));
}

#[test]
fn validate_line_cases() {
    let broken_line = "2019-12-04\t21:02:31\tLAX1";
    assert_eq!(validate_line(DOCS_LINE), Ok(()));
    assert_eq!(validate_line(DOCS_LINE), Ok(()));
    assert_eq!(validate_line(broken_line), Err("Invalid log line (field count)"));
    assert_eq!(validate_line(""), Err("Invalid log line (empty)"));
    assert_eq!(validate_line("#Version: 1.0"), Err("Invalid log line (comment)"));
}

#[test]
fn validate_line_tab_count_boundaries() {
    let (short, _) = DOCS_LINE.rsplit_once('\t').unwrap();
    assert_eq!(short.matches('\t').count(), 31);
    assert_eq!(validate_line(short), Err("Invalid log line (field count)"));
    let long = format!("{}\t-", DOCS_LINE);
    assert_eq!(long.matches('\t').count(), 33);
    assert_eq!(validate_line(&long), Err("Invalid log line (field count)"));
    assert!(ValidatedRawLogline::try_from(long.as_str()).is_err());
}

#[test]
fn strategies_agree_on_every_field() {
    let eager = ValidatedRawLogline::try_from(ERROR_LINE).unwrap();
    let lazy = checked::LogLineView::new(ERROR_LINE).unwrap();
    let mut cached = smart::LogLineView::new(ERROR_LINE).unwrap();
    let expected: Vec<&str> = ERROR_LINE.split('\t').collect();
    assert_eq!(expected.len(), 33);
    assert_eq!(eager.to_vec(), expected);
    let lazy_fields = vec![
        lazy.date(), lazy.time(), lazy.x_edge_location(), lazy.sc_bytes(), lazy.c_ip(), lazy.cs_method(),
        lazy.cs_host(), lazy.cs_uri_stem(), lazy.sc_status(), lazy.cs_referer(), lazy.cs_user_agent(),
        lazy.cs_uri_query(), lazy.cs_cookie(), lazy.x_edge_result_type(), lazy.x_edge_request_id(),
        lazy.x_host_header(), lazy.cs_protocol(), lazy.cs_bytes(), lazy.time_taken(), lazy.x_forwarded_for(),
        lazy.ssl_protocol(), lazy.ssl_cipher(), lazy.x_edge_response_result_type(), lazy.cs_protocol_version(),
        lazy.fle_status(), lazy.fle_encrypted_fields(), lazy.c_port(), lazy.time_to_first_byte(),
        lazy.x_edge_detailed_result_type(), lazy.sc_content_type(), lazy.sc_content_len(), lazy.sc_range_start(),
        lazy.sc_range_end(),
    ];
    assert_eq!(lazy_fields, expected);
    let idx = indexed::LogLineView::new(ERROR_LINE).unwrap();
    assert_eq!(idx.date(), expected[0]);
    assert_eq!(idx.sc_range_end(), expected[32]);
    assert_eq!(idx.cs_referer(), expected[9]);
    assert_eq!(idx.x_edge_detailed_result_type(), expected[28]);
    assert_eq!(idx.c_ip(), expected[4]);
    // forward, repeated and backward reads through the cached cursor
    assert_eq!(cached.date(), "2019-12-13");
    assert_eq!(cached.date(), "2019-12-13");
    assert_eq!(cached.sc_status(), "502");
    assert_eq!(cached.cs_referer(), "http://www.example.com/");
    assert_eq!(cached.time(), "22:36:27");
    assert_eq!(cached.sc_range_end(), "-");
    assert_eq!(cached.x_edge_detailed_result_type(), "OriginDnsError");
    assert_eq!(cached.sc_content_len(), "507");
    assert_eq!(cached.sc_content_len(), "507");
}

#[test]
fn views_reject_invalid_lines() {
    assert_eq!(checked::LogLineView::new("").err(), Some("Invalid log line (empty)"));
    assert_eq!(smart::LogLineView::new("#Fields: date").err(), Some("Invalid log line (comment)"));
    assert_eq!(indexed::LogLineView::new("a\tb").err(), Some("Invalid log line (field count)"));
}

#[test]
fn validation_marker_round_trip() {
    let validated = ValidatedRawLogline::try_from(SINGLE_LOG_LINE).unwrap();
    let unvalidated: UnvalidatedRawLogline<'_> = validated.into_unvalidated();
    let again = unvalidated.assume_validated();
    let fresh = ValidatedRawLogline::try_from(SINGLE_LOG_LINE).unwrap();
    assert_eq!(again, fresh);
    let back: UnvalidatedRawLogline<'_> = UnvalidatedRawLogline::from(fresh);
    assert_eq!(back, UnvalidatedRawLogline::new(SINGLE_LOG_LINE));
}

#[test]
fn unvalidated_short_line_has_empty_fields() {
    let item = UnvalidatedRawLogline::try_from("a\tb").unwrap();
    assert_eq!(item.date, "a");
    assert_eq!(item.time, "b");
    assert_eq!(item.x_edge_location, "");
    assert_eq!(item.sc_range_end, "");
}

#[test]
fn docs_sample_scenario() {
    let raw = ValidatedRawLogline::try_from(DOCS_LINE).unwrap();
    assert_eq!(raw.date, "2019-12-04");
    assert_eq!(raw.sc_bytes, "392");
    assert_eq!(raw.c_ip, "192.0.2.100");
    let typed = ValidatedSimpleLogline::from_text(DOCS_LINE).unwrap();
    assert_eq!(typed.date, "2019-12-04");
    assert_eq!(typed.sc_bytes, 392);
    assert_eq!(typed.c_ip, IpAddr::V4(Ipv4Addr::new(192, 0, 2, 100)));
    assert_eq!(typed.time_taken, Duration::from_millis(1));
    assert_eq!(typed.cs_protocol, CsProtocol::Https);
    assert_eq!(typed.cs_protocol_version, CsProtocolVersion::HTTP2_0);
    assert_eq!(typed.ssl_protocol, Some(SslProtocol::TLSv1_2));
    assert_eq!(typed.sc_content_len, 78);
    assert_eq!(typed.c_port, 11040);
    assert_eq!(typed.x_edge_detailed_result_type, DetailedEdgeResultType::Hit);
}

#[test]
fn sentinel_fields_are_absent() {
    let typed = ValidatedSimpleLogline::from_text(DOCS_LINE).unwrap();
    assert_eq!(typed.cs_referer, None);
    assert_eq!(typed.cs_uri_query, None);
    assert_eq!(typed.cs_cookie, None);
    assert_eq!(typed.x_forwarded_for, None);
    assert_eq!(typed.fle_status, None);
    assert_eq!(typed.fle_encrypted_fields, None);
    assert_eq!(typed.sc_range_start, None);
    assert_eq!(typed.sc_range_end, None);
    let typed = ValidatedSimpleLogline::from_text(ERROR_LINE).unwrap();
    assert_eq!(typed.ssl_protocol, None);
    assert_eq!(typed.ssl_cipher, None);
    assert_eq!(typed.cs_referer, Some(String::from("http://www.example.com/")));
    let line = replace_field(DOCS_LINE, 31, "100");
    let typed = ValidatedSimpleLogline::from_text(&line).unwrap();
    assert_eq!(typed.sc_range_start, Some(100));
}

#[test]
fn text_and_raw_paths_agree() {
    for line in [SINGLE_LOG_LINE, DOCS_LINE, ERROR_LINE] {
        let a = ValidatedSimpleLogline::from_text(line).unwrap();
        let b = ValidatedSimpleLogline::try_from_with_raw(line).unwrap();
        let raw = ValidatedRawLogline::try_from(line).unwrap();
        let c = ValidatedSimpleLogline::from_raw(&raw).unwrap();
        assert_eq!(a, b);
        assert_eq!(a, c);
        let d = UnvalidatedSimpleLogline::from_text(line).unwrap();
        let e = UnvalidatedSimpleLogline::try_from_with_raw(line).unwrap();
        assert_eq!(d, e);
    }
}

#[test]
fn typed_field_errors() {
    let cases = [
        (3, "x", "sc_bytes invalid"),
        (4, "1.2.3", "c_ip invalid"),
        (8, "70000", "sc_status invalid"),
        (17, "-1", "cs_bytes invalid"),
        (18, "abc", "time_taken invalid"),
        (19, "1.2.3.4, nope", "x_forwarded_for invalid"),
        (25, "many", "fle_encrypted_fields invalid"),
        (26, "65536", "c_port invalid"),
        (27, "", "time_to_first_byte invalid"),
        (30, "18446744073709551616", "sc_content_len invalid"),
        (31, "a", "sc_range_start invalid"),
        (32, "b", "sc_range_end invalid"),
    ];
    for (index, value, error) in cases {
        let line = replace_field(DOCS_LINE, index, value);
        assert_eq!(ValidatedSimpleLogline::from_text(&line).err(), Some(error));
        assert_eq!(ValidatedSimpleLogline::try_from_with_raw(&line).err(), Some(error));
    }
    let line = replace_field(&replace_field(DOCS_LINE, 26, "x"), 3, "y");
    assert_eq!(ValidatedSimpleLogline::from_text(&line).err(), Some("sc_bytes invalid"));
    assert_eq!(ValidatedSimpleLogline::from_text("#Version: 1.0").err(), Some("Invalid log line (comment)"));
    assert_eq!(UnvalidatedSimpleLogline::from_text("a\tb").err(), Some("sc_bytes invalid"));
}

#[test]
fn unknown_result_type_is_kept() {
    let line = replace_field(DOCS_LINE, 13, "SomethingNew");
    let typed = ValidatedSimpleLogline::from_text(&line).unwrap();
    assert_eq!(typed.x_edge_result_type, EdgeResultType::Other(String::from("SomethingNew")));
    assert_eq!(EdgeResultType::parse("SomethingNew"), EdgeResultType::Other(String::from("SomethingNew")));
    assert_eq!(EdgeResultType::parse("SomethingNew").as_str(), "SomethingNew");
    assert_eq!(
        DetailedEdgeResultType::parse("OriginShieldHit"),
        DetailedEdgeResultType::OriginShieldHit
    );
    assert_eq!(DetailedEdgeResultType::parse("Brand-new").to_string(), "Brand-new");
}

#[test]
fn protocol_enums_read_their_texts() {
    assert_eq!(CsProtocol::parse("wss"), CsProtocol::Wss);
    assert_eq!(CsProtocol::parse("WSS"), CsProtocol::Other(String::from("WSS")));
    assert_eq!(CsProtocolVersion::parse("HTTP/0.9"), CsProtocolVersion::HTTP0_9);
    assert_eq!(SslProtocol::parse("TLSv1"), SslProtocol::TLSv1_0);
    assert_eq!(SslProtocol::SSLv3.as_str(), "SSLv3");
    assert_eq!(CsProtocol::try_from("http"), Ok(CsProtocol::Http));
    assert_eq!(SslProtocol::parse("TLSv1.4").to_string(), "TLSv1.4");
}

#[test]
fn unknown_protocol_values_are_kept() {
    let line = replace_field(&replace_field(&replace_field(DOCS_LINE, 16, "quic"), 20, "TLSv1.4"), 23, "HTTP/4.0");
    let typed = ValidatedSimpleLogline::from_text(&line).unwrap();
    assert_eq!(typed.cs_protocol, CsProtocol::Other(String::from("quic")));
    assert_eq!(typed.ssl_protocol, Some(SslProtocol::Other(String::from("TLSv1.4"))));
    assert_eq!(typed.cs_protocol_version, CsProtocolVersion::Other(String::from("HTTP/4.0")));
    let borrowed = ValidatedTimeLogline::from_text(&line).unwrap();
    assert_eq!(borrowed.cs_protocol, CsProtocol::Other(String::from("quic")));
}

#[test]
fn addresses_read_as_std_reads_them() {
    let parse = |s: &str| Addressable::parse(s);
    assert_eq!(parse("::1"), Ok(Addressable::IpAddr(IpAddr::V6(Ipv6Addr::new(0, 0, 0, 0, 0, 0, 0, 1)))));
    assert_eq!(
        parse("::ffff:1.2.3.4"),
        Ok(Addressable::IpAddr(IpAddr::V6(Ipv6Addr::new(0, 0, 0, 0, 0, 0xffff, 0x0102, 0x0304))))
    );
    assert_eq!(
        parse("[::1%3]:80"),
        Ok(Addressable::Socket(SocketAddr::V6(Ipv6Addr::new(0, 0, 0, 0, 0, 0, 0, 1), 80, 3)))
    );
    assert_eq!(parse("[2001:db8::]:443"), Ok(Addressable::Socket(SocketAddr::V6(Ipv6Addr::new(0x2001, 0xdb8, 0, 0, 0, 0, 0, 0), 443, 0))));
    assert!(parse("1.2.3.256").is_err());
    assert!(parse("1.2.3").is_err());
    assert!(parse("1.2.3.4:65536").is_err());
    assert!(parse("1:2:3:4:5:6:7:8:9").is_err());
    assert!(parse("1.02.3.4").is_err());
    assert_eq!(parse("0.0.0.0"), Ok(Addressable::IpAddr(IpAddr::V4(Ipv4Addr::new(0, 0, 0, 0)))));
    assert_eq!(parse("01.02.03.04"), Ok(Addressable::IpAddr(IpAddr::V4(Ipv4Addr::new(1, 2, 3, 4)))));
    assert!(parse("0300.1.1.1").is_err());
    assert!(parse("").is_err());
    assert_eq!(Addressable::from(IpAddr::V4(Ipv4Addr::new(1, 1, 1, 1))), Addressable::IpAddr(IpAddr::V4(Ipv4Addr::new(1, 1, 1, 1))));
}

#[test]
fn forwarded_for_edge_cases() {
    assert!(ForwardedForAddrs::parse("").is_err());
    assert!(ForwardedForAddrs::parse("1.2.3.4,").is_err());
    assert_eq!(
        ForwardedForAddrs::parse(" \u{3000}1.2.3.4\t ").unwrap().0,
        vec![Addressable::IpAddr(IpAddr::V4(Ipv4Addr::new(1, 2, 3, 4)))]
    );
    assert_eq!(ForwardedForAddrs::parse("1.2.3.4, bogus").err(), Some("invalid X-Forwarded-For IP(s)"));
    assert_eq!(Addressable::parse("bogus").err(), Some("invalid X-Forwarded-For IP/socket address"));
}

#[test]
fn numbers_and_durations() {
    assert_eq!(parse_u64("+5"), Some(5));
    assert_eq!(parse_u64("18446744073709551615"), Some(u64::MAX));
    assert_eq!(parse_u64("18446744073709551616"), None);
    assert_eq!(parse_u64("+"), None);
    assert_eq!(parse_u64(""), None);
    assert_eq!(parse_u16("65535"), Some(65535));
    assert_eq!(parse_u16("65536"), None);
    assert_eq!(parse_duration("0.001"), Some(Duration::from_millis(1)));
    assert_eq!(parse_duration("2"), Some(Duration::new(2, 0)));
    assert_eq!(parse_duration("1.5"), Some(Duration::new(1, 500_000_000)));
    assert_eq!(parse_duration("0.123456789"), Some(Duration::new(0, 123_456_789)));
    assert_eq!(parse_duration("0.1234567891"), None);
    assert_eq!(parse_duration("-1"), None);
    assert_eq!(parse_duration("1.x"), None);
}

#[test]
fn sentinel_helpers() {
    assert!(is_sentinel("-"));
    assert!(!is_sentinel("--"));
    assert_eq!(as_optional_str("-"), None);
    assert_eq!(as_optional_str("x"), Some("x"));
    assert_eq!(to_optional_string("-"), None);
    assert_eq!(to_optional_string("abc"), Some(String::from("abc")));
}

#[test]
fn self_referential_line() {
    let item = OwningValidatedRawLogline::try_from(SINGLE_LOG_LINE).unwrap();
    let view = item.view();
    assert_eq!(view.date, "2019-12-04");
    assert_eq!(view.time, "21:02:31");
    assert_eq!(view.sc_bytes, "392");
    assert_eq!(view.cs_protocol, "https");
    assert_eq!(view.x_forwarded_for, "1.2.3.4, 5.6.7.8, 9.10.11.12");
    assert_eq!(view, ValidatedRawLogline::try_from(SINGLE_LOG_LINE).unwrap());
    let copy = item.clone();
    assert_eq!(copy.view(), item.view());
    assert_eq!(item.as_raw(), SINGLE_LOG_LINE);
    assert_eq!(item.into_raw(), String::from(SINGLE_LOG_LINE));
    assert!(OwningValidatedRawLogline::try_from("#Version: 1.0").is_err());
    let checked_again = OwningUnvalidatedRawLogline::from(SINGLE_LOG_LINE).validate().unwrap();
    assert_eq!(checked_again.view().date, "2019-12-04");
    assert_eq!(checked_again.into_unvalidated().as_raw(), SINGLE_LOG_LINE);
    assert_eq!(OwningUnvalidatedRawLogline::from("").validate().err(), Some("Invalid log line (empty)"));
    let loose = OwningUnvalidatedRawLogline::from("x\ty");
    assert_eq!(loose.view().time, "y");
    assert_eq!(loose.view().c_ip, "");
}

#[test]
fn typed_marker_conversions() {
    let owned = ValidatedSimpleLogline::from_text(DOCS_LINE).unwrap();
    let loose: UnvalidatedSimpleLogline = owned.into_unvalidated();
    assert_eq!(loose, UnvalidatedSimpleLogline::from_text(DOCS_LINE).unwrap());
    let strict = ValidatedSimpleLogline::from(loose);
    assert_eq!(strict, ValidatedSimpleLogline::from_text(DOCS_LINE).unwrap());
    let typed = ValidatedTimeLogline::from_text(DOCS_LINE).unwrap();
    let loose_typed = UnvalidatedTimeLogline::from(typed);
    assert_eq!(loose_typed.x_host_header, "d111111abcdef8.cloudfront.net");
    assert_eq!(loose_typed.assume_validated().c_port, 11040);
}

#[test]
fn addresses_from_str() {
    assert_eq!("unknown".parse::<Addressable>(), Ok(Addressable::Unknown));
    let addrs: ForwardedForAddrs = "1.2.3.4, unknown".parse().unwrap();
    assert_eq!(addrs.0, vec![Addressable::IpAddr(IpAddr::V4(Ipv4Addr::new(1, 2, 3, 4))), Addressable::Unknown]);
}

#[test]
fn self_referential_typed_view() {
    let item = OwningValidatedRawLogline::try_from(DOCS_LINE).unwrap();
    let typed = item.typed_view().unwrap();
    assert_eq!(typed.date, Date::from_calendar_date(2019, 12, 4).unwrap());
    assert_eq!(typed.sc_bytes, 392);
    assert_eq!(typed.cs_protocol, CsProtocol::Https);
    let bad = OwningValidatedRawLogline::try_from(replace_field(DOCS_LINE, 4, "nowhere")).unwrap();
    assert_eq!(bad.typed_view().err(), Some("c_ip invalid"));
}

#[test]
fn leading_tab_is_not_split() {
    let line = format!("\t{}", DOCS_LINE.split_once('\t').unwrap().1);
    assert_eq!(validate_line(&line), Ok(()));
    let err = Some("Invalid log line (tab at start)");
    assert_eq!(ValidatedRawLogline::try_from(line.as_str()).err(), err);
    assert_eq!(UnvalidatedRawLogline::try_from(line.as_str()).err(), err);
    assert_eq!(checked::LogLineView::new(&line).err(), err);
    assert_eq!(smart::LogLineView::new(&line).err(), err);
    assert_eq!(indexed::LogLineView::new(&line).err(), err);
    assert_eq!(ValidatedSimpleLogline::from_text(&line).err(), err);
    assert_eq!(UnvalidatedSimpleLogline::from_text(&line).err(), err);
    assert_eq!(ValidatedTimeLogline::from_text(&line).err(), err);
    assert_eq!(UnvalidatedTimeLogline::from_text(&line).err(), err);
    assert!(OwningValidatedRawLogline::try_from(line.as_str()).is_err());
}

#[test]
fn owned_record_conversions() {
    let a = ValidatedSimpleLogline::try_from(DOCS_LINE).unwrap();
    let raw = ValidatedRawLogline::try_from(DOCS_LINE).unwrap();
    let b = ValidatedSimpleLogline::try_from(raw).unwrap();
    assert_eq!(a, b);
    let c = UnvalidatedSimpleLogline::try_from(ERROR_LINE).unwrap();
    assert_eq!(c.sc_bytes, 900);
    assert_eq!(ValidatedSimpleLogline::try_from("").err(), Some("Invalid log line (empty)"));
}

#[test]
fn calendar_and_duration_values() {
    assert!(Date::from_calendar_date(2019, 13, 1).is_none());
    assert!(Date::from_calendar_date(2019, 2, 29).is_none());
    assert!(Date::from_calendar_date(2020, 2, 29).is_some());
    assert!(Date::from_calendar_date(1900, 2, 29).is_none());
    assert!(Date::from_calendar_date(2000, 2, 29).is_some());
    assert!(Time::from_hms(24, 0, 0).is_none());
    assert_eq!(Duration::new(1, 2_500_000_000), Duration::new(3, 500_000_000));
    assert_eq!(Duration::new(1, 2_500_000_000).subsec_nanos(), 500_000_000);
    assert_eq!(Duration::from_millis(1_500).as_secs(), 1);
}
