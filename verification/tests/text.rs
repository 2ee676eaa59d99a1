use hlhsinfo_backend_server::http::{
    check_status, is_redirection, is_success, APIPaths, HTTPErrorReturn, ReplaceString,
};
use hlhsinfo_backend_server::text::{
    append_chars, chars_of, find_from, is_whitespace, matches_at, replace_all, same_chars,
    slice_chars, split_words, string_of, take_after, take_before,
};
use hlhsinfo_backend_server::utils::{
    combine_page_path, combine_path, convert_string_to_u32, create_auth_header,
    find_string_in_url, get_asp_cookie, get_time_after, get_time_after_millisec, get_timestamp,
    get_timestamp_millisec, html_to_text, parse_u32, time_after_from, time_after_millisec_from,
    vecu8_to_hex_string,
};

fn chars(text: &str) -> Vec<char> {
    text.chars().collect()
}

fn replaced(text: &str, from: &str, to: &str) -> String {
    string_of(&replace_all(&chars(text), &chars(from), &chars(to)))
}

#[test]
fn chars_and_strings_convert_both_ways() {
    for text in ["", "a", "欣河資訊", "a b\nc"] {
        assert_eq!(chars_of(text), chars(text));
        assert_eq!(string_of(&chars(text)), text);
    }
    let mut out = chars("ab");
    append_chars(&mut out, &chars("cd"));
    assert_eq!(out, chars("abcd"));
    assert_eq!(slice_chars(&chars("abcdef"), 2, 4), chars("cd"));
    assert_eq!(slice_chars(&chars("abcdef"), 3, 3), chars(""));
    assert!(same_chars(&chars("abc"), &chars("abc")));
    assert!(!same_chars(&chars("abc"), &chars("abd")));
    assert!(!same_chars(&chars("abc"), &chars("ab")));
}

#[test]
fn finding_goes_from_the_left() {
    let text = chars("abcabc");
    assert!(matches_at(&text, &chars("bc"), 1));
    assert!(!matches_at(&text, &chars("bc"), 2));
    assert!(!matches_at(&text, &chars("bc"), 5));
    assert!(matches_at(&text, &chars(""), 6));
    assert!(!matches_at(&text, &chars(""), 7));
    assert_eq!(find_from(&text, &chars("bc"), 0), Some(1));
    assert_eq!(find_from(&text, &chars("bc"), 2), Some(4));
    assert_eq!(find_from(&text, &chars("bc"), 5), None);
    assert_eq!(find_from(&text, &chars("x"), 0), None);
    assert_eq!(find_from(&text, &chars("abcabcd"), 0), None);
    assert_eq!(take_before(&text, &chars("c")), chars("ab"));
    assert_eq!(take_before(&text, &chars("x")), text);
    assert_eq!(take_after(&text, &chars("c")), Some(chars("abc")));
    assert_eq!(take_after(&text, &chars("x")), None);
}

#[test]
fn replace_all_is_what_str_replace_does() {
    let texts = ["", "a", "aaa", "abcabc", "a b  c", "\n\n\n\n", "$year$-$term$", "aXbXXc"];
    let patterns = ["", "a", "aa", "bc", " ", "\n\n\n", "$year$", "X", "abcabcabc"];
    let fills = ["", "-", "ab", "$year$"];
    for text in texts {
        for from in patterns {
            for to in fills {
                assert_eq!(replaced(text, from, to), text.replace(from, to), "{:?} {:?} {:?}", text, from, to);
            }
        }
    }
    assert_eq!(replaced("aaa", "aa", "b"), "ba");
    assert_eq!(replaced("abc", "", "-"), "-a-b-c-");
}

#[test]
fn white_space_is_what_char_says() {
    let mut code: u32 = 0;
    while code <= 0x10ffff {
        if let Some(c) = char::from_u32(code) {
            assert_eq!(is_whitespace(c), c.is_whitespace(), "U+{:04X}", code);
        }
        code += 1;
    }
}

#[test]
fn words_are_what_split_whitespace_gives() {
    for text in ["", " ", "a", " a", "a ", "Bearer abc", "  Bearer\tabc\n", "a b c", "a\u{3000}b", "a  b"] {
        let expected: Vec<Vec<char>> = text.split_whitespace().map(chars).collect();
        assert_eq!(split_words(&chars(text)), expected, "{:?}", text);
    }
}

#[test]
fn paths_of_the_portal() {
    assert_eq!(APIPaths::Home.path(), "/");
    assert_eq!(APIPaths::Login.path(), "/login.asp");
    assert_eq!(APIPaths::LoginCaptcha.path(), "/image/vcode.asp");
    assert_eq!(APIPaths::ProfileImage.path(), "/utility/file1.asp?q=x&id=$imgid$");
    assert_eq!(
        APIPaths::ClassData.path(),
        "/student/selection_look_over_data.asp?look_over=right_top&school_class=&division="
    );
    assert_eq!(
        APIPaths::ProfileShort.path(),
        "/student/selection_look_over_data.asp?look_over=right_below&school_class="
    );
    assert_eq!(APIPaths::Lack.path(), "/selection_student/absentation_skip_school.asp");
}

#[test]
fn paths_are_rewritten_in_order() {
    let rules = vec![
        ReplaceString { match_string: "$year$".to_owned(), replacement: "111".to_owned() },
        ReplaceString { match_string: "$term$".to_owned(), replacement: "2".to_owned() },
        ReplaceString { match_string: "$testid$".to_owned(), replacement: "1101".to_owned() },
    ];
    assert_eq!(
        APIPaths::Score.replace(rules),
        "/selection_student/student_subjects_number.asp?action=%A6U%A6%A1%A6%A8%C1Z&thisyear=111&thisterm=2&number=1101&exam_name=hlhs"
    );
    assert_eq!(APIPaths::Home.replace(Vec::new()), "/");
    let chained = vec![
        ReplaceString { match_string: "$imgid$".to_owned(), replacement: "$x$".to_owned() },
        ReplaceString { match_string: "$x$".to_owned(), replacement: "42".to_owned() },
    ];
    assert_eq!(APIPaths::ProfileImage.replace(chained), "/utility/file1.asp?q=x&id=42");
}

#[test]
fn statuses_are_sorted() {
    for code in [200u16, 204, 299] {
        assert!(is_success(code));
        assert!(!is_redirection(code));
        assert!(matches!(check_status(code), Ok(kept) if kept == code));
    }
    for code in [300u16, 302, 399] {
        assert!(!is_success(code));
        assert!(is_redirection(code));
        assert!(check_status(code).is_ok());
    }
    for code in [0u16, 100, 199, 400, 404, 500, 599, 65535] {
        assert!(!is_success(code));
        assert!(!is_redirection(code));
        assert!(matches!(check_status(code), Err(HTTPErrorReturn::StatusCodeError(refused)) if refused == code));
    }
}

#[test]
fn hex_text_of_bytes() {
    assert_eq!(vecu8_to_hex_string(&[]), "");
    assert_eq!(vecu8_to_hex_string(&[0x00, 0x0f, 0x10, 0xff]), "000f10ff");
    assert_eq!(vecu8_to_hex_string(&[0x41, 0x5a, 0x5b, 0x40, 0x61]), "617a5b4061");
    let all: Vec<u8> = (0..=255).collect();
    let expected: String =
        all.to_ascii_lowercase().iter().map(|byte| format!("{:02x}", byte)).collect::<Vec<String>>().join("");
    assert_eq!(vecu8_to_hex_string(&all), expected);
}

#[test]
fn cookie_is_what_stands_before_the_attributes() {
    assert_eq!(get_asp_cookie("ASPSESSIONID=abc; path=/; HttpOnly"), "ASPSESSIONID=abc");
    assert_eq!(get_asp_cookie("ASPSESSIONID=abc"), "ASPSESSIONID=abc");
    assert_eq!(get_asp_cookie("a;b; c"), "a;b");
    assert_eq!(get_asp_cookie("; x"), "");
    assert_eq!(get_asp_cookie(""), "");
    assert_eq!(get_asp_cookie("名=值; x"), "名=值");
}

#[test]
fn numbers_are_read_as_parse_reads_them() {
    let texts = [
        "", "0", "7", "007", "+7", "+", "-7", "4294967295", "4294967296", "99999999999999999999",
        "12a", "a12", " 12", "12 ", "１２", "+-1", "++1", "1_000", "0x10",
    ];
    for text in texts {
        assert_eq!(parse_u32(text), text.parse::<u32>().ok(), "{:?}", text);
        assert_eq!(convert_string_to_u32(text), text.parse::<u32>().unwrap_or(0), "{:?}", text);
    }
    assert_eq!(convert_string_to_u32("85"), 85);
    assert_eq!(convert_string_to_u32("eighty"), 0);
}

#[test]
fn addresses_are_put_together() {
    assert_eq!(combine_path("http://h/online", "/login.asp"), "http://h/online/login.asp");
    assert_eq!(combine_path("", ""), "");
    assert_eq!(combine_page_path("http://h/online", APIPaths::Login), "http://h/online/login.asp");
    let header = create_auth_header("ASPSESSIONID=abc");
    assert_eq!(header.header, "Cookie");
    assert_eq!(header.value, "ASPSESSIONID=abc");
}

#[test]
fn clock_goes_forward() {
    let seconds = get_timestamp();
    let milliseconds = get_timestamp_millisec();
    assert!(seconds > 1_600_000_000);
    assert!(milliseconds / 1000 >= seconds as u128);
    assert!(milliseconds / 1000 <= seconds as u128 + 5);
    assert!(get_time_after(5) >= seconds + 300);
    assert!(get_time_after(5) <= seconds + 305);
    assert!(get_time_after_millisec(1) >= milliseconds + 60000);
    assert_eq!(get_time_after(u64::MAX), u64::MAX);
}

#[test]
fn time_after_adds_minutes() {
    assert_eq!(time_after_from(1000, 5), 1300);
    assert_eq!(time_after_from(0, 0), 0);
    assert_eq!(time_after_from(u64::MAX - 60, 1), u64::MAX);
    assert_eq!(time_after_from(u64::MAX - 59, 1), u64::MAX);
    assert_eq!(time_after_from(1, u64::MAX / 60 + 1), u64::MAX);
    assert_eq!(time_after_millisec_from(1000, 5), 301000);
    assert_eq!(time_after_millisec_from(u128::MAX, 1), u128::MAX);
}

#[test]
fn texts_of_an_element_are_joined() {
    assert_eq!(html_to_text(&vec!["a".to_owned(), " b".to_owned(), "".to_owned(), "c".to_owned()]), "a bc");
    assert_eq!(html_to_text(&Vec::new()), "");
}

#[test]
fn first_pair_of_a_name_wins() {
    let pairs = vec![
        ("thisyear".to_owned(), "111".to_owned()),
        ("number".to_owned(), "1101".to_owned()),
        ("number".to_owned(), "9999".to_owned()),
    ];
    assert_eq!(find_string_in_url(&pairs, "number"), "1101");
    assert_eq!(find_string_in_url(&pairs, "thisyear"), "111");
    assert_eq!(find_string_in_url(&pairs, "thisterm"), "");
    assert_eq!(find_string_in_url(&Vec::new(), "number"), "");
}
