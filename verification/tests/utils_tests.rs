use video_compressor::text::decimal_string;
use video_compressor::utils::{format_size, shell_quote};

#[test]
fn plain_arguments_are_shown_bare() {
    assert_eq!(shell_quote("abc"), "abc");
    assert_eq!(shell_quote(""), "");
    assert_eq!(shell_quote("-filter:v"), "-filter:v");
    assert_eq!(shell_quote("fps=30,scale=-1:720"), "fps=30,scale=-1:720");
    assert_eq!(shell_quote("back\\slash"), "back\\slash");
    assert_eq!(shell_quote("tab\there"), "tab\there");
}

#[test]
fn arguments_with_a_space_are_quoted() {
    assert_eq!(shell_quote("my video.mp4"), "\"my video.mp4\"");
    assert_eq!(shell_quote(" "), "\" \"");
}

#[test]
fn double_quotes_are_escaped() {
    assert_eq!(shell_quote("a\"b"), "\"a\\\"b\"");
    assert_eq!(shell_quote("\""), "\"\\\"\"");
    assert_eq!(shell_quote("say \"hi\" now"), "\"say \\\"hi\\\" now\"");
}

#[test]
fn single_quotes_ask_for_quoting_and_stay() {
    assert_eq!(shell_quote("it's"), "\"it's\"");
}

#[test]
fn characters_beyond_ascii_pass_through() {
    assert_eq!(shell_quote("vidéo.mp4"), "vidéo.mp4");
    assert_eq!(shell_quote("mon vidéo.mp4"), "\"mon vidéo.mp4\"");
}

#[test]
fn decimal_numerals() {
    assert_eq!(decimal_string(0), "0");
    assert_eq!(decimal_string(7), "7");
    assert_eq!(decimal_string(10), "10");
    assert_eq!(decimal_string(1_117_587), "1117587");
    assert_eq!(decimal_string(u64::MAX), "18446744073709551615");
}

#[test]
fn sizes_below_a_kilobyte_are_whole_bytes() {
    assert_eq!(format_size(0), "0 B");
    assert_eq!(format_size(1), "1 B");
    assert_eq!(format_size(1023), "1023 B");
}

#[test]
fn kilobytes_have_one_decimal() {
    assert_eq!(format_size(1024), "1.0 KB");
    assert_eq!(format_size(1536), "1.5 KB");
    assert_eq!(format_size(1382), "1.3 KB");
    assert_eq!(format_size(1_048_575), "1024.0 KB");
}

#[test]
fn halves_go_to_the_even_digit() {
    assert_eq!(format_size(1280), "1.2 KB");
    assert_eq!(format_size(1792), "1.8 KB");
    assert_eq!(format_size(1_310_720), "1.2 MB");
    assert_eq!(format_size(1_835_008), "1.8 MB");
}

#[test]
fn megabytes_have_one_decimal() {
    assert_eq!(format_size(1_048_576), "1.0 MB");
    assert_eq!(format_size(5_295_309), "5.1 MB");
    assert_eq!(format_size(123_456_789), "117.7 MB");
    assert_eq!(format_size(1_073_741_823), "1024.0 MB");
}

#[test]
fn gigabytes_have_two_decimals() {
    assert_eq!(format_size(1_073_741_824), "1.00 GB");
    assert_eq!(format_size(1_610_612_736), "1.50 GB");
    assert_eq!(format_size(9_876_543_210), "9.20 GB");
    assert_eq!(format_size(10_742_786_949), "10.00 GB");
}

#[test]
fn the_largest_sizes() {
    assert_eq!(format_size(9_007_199_254_740_992), "8388608.00 GB");
    assert_eq!(format_size(9_007_199_254_740_993), "8388608.00 GB");
    assert_eq!(format_size(9_223_372_036_854_776_833), "8589934592.00 GB");
    assert_eq!(format_size(u64::MAX), "17179869184.00 GB");
}
