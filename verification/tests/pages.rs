use hlhsinfo_backend_server::apis::v1::get_available_score;
use hlhsinfo_backend_server::apis::v1::get_lack;
use hlhsinfo_backend_server::apis::v1::get_login_captcha;
use hlhsinfo_backend_server::apis::v1::get_reward_and_punish;
use hlhsinfo_backend_server::apis::v1::get_score;
use hlhsinfo_backend_server::apis::v1::get_user_info_short;
use hlhsinfo_backend_server::apis::v1::get_user_profile;
use hlhsinfo_backend_server::error::{FetchError, HTTPError};
use hlhsinfo_backend_server::html::Cell;
use hlhsinfo_backend_server::page::{cell_chars, contains, narrow_u16, narrow_u8, number_of, squeeze};
use hlhsinfo_backend_server::relay::Method;
use hlhsinfo_backend_server::routes::{
    catcher_error, err_bad_gateway, err_bad_request, err_forbidden, err_not_found,
    err_server_error, err_unauthorized, home,
};
use hlhsinfo_backend_server::secure::{cache_key_from, create_cache_key, create_hash, HashAlgorithm};
use hlhsinfo_backend_server::types::{AuthToken, LoginInfoAuthToken, UserProfileShortValue};
use hlhsinfo_backend_server::utils::{buffer_to_base64, get_timestamp_millisec, vecu8_to_hex_string};

fn chars(text: &str) -> Vec<char> {
    text.chars().collect()
}

fn text(chars: Vec<char>) -> String {
    chars.into_iter().collect()
}

fn cell(texts: &[&str]) -> Cell {
    Cell { texts: texts.iter().map(|text| text.to_string()).collect(), attribute: None, marked: false }
}

fn session() -> AuthToken {
    AuthToken {
        host: "https://school.example/online".to_owned(),
        cookie: "ASPSESSIONID=abc".to_owned(),
        user_data: UserProfileShortValue {
            className: "一年一班".to_owned(),
            classNumber: "07".to_owned(),
            gender: "女".to_owned(),
            schoolNumber: "110123".to_owned(),
            userName: "王小明".to_owned(),
        },
        iat: 1,
        exp: 2,
    }
}

const REWARDS: &str = "<html><body>\
<table><tr><td>head</td><td>a</td></tr>\
<tr><td>上</td><td>大功</td><td>1</td><td>小功</td><td> 2</td><td>odd</td></tr>\
<tr><td>下</td><td>警告</td><td>70000</td></tr></table>\
<table><tr class=\"dataRow\"><td>嘉獎</td><td>111/03/01</td><td>111/03/05</td><td>熱心</td><td>嘉獎一次</td><td>&nbsp;</td><td>111</td><td>more</td></tr>\
<tr class=\"dataRow\"><td>警告</td><td>111/04/01</td><td>111/04/02</td><td>遲到</td><td>警告一次</td><td>111/05/01</td><td>300</td></tr>\
<tr><td>not data</td></tr></table>\
</body></html>";

#[test]
fn rewards_are_counted_and_listed() {
    let counts = get_reward_and_punish::get_summarize(REWARDS).expect("counts");
    let shown: Vec<(String, u16)> = counts.into_iter().map(|count| (count.kind, count.times)).collect();
    assert_eq!(
        shown,
        vec![("大功".to_owned(), 1), ("小功".to_owned(), 0), ("警告".to_owned(), 4464)]
    );

    let records = get_reward_and_punish::get_detail(REWARDS).expect("records");
    assert_eq!(records.len(), 2);
    assert_eq!(records[0].kind, "嘉獎");
    assert_eq!(records[0].start, "111/03/01");
    assert_eq!(records[0].signed, "111/03/05");
    assert_eq!(records[0].reason, "熱心");
    assert_eq!(records[0].execute, "嘉獎一次");
    assert_eq!(records[0].sold, None);
    assert_eq!(records[0].year, 111);
    assert_eq!(records[1].sold.as_deref(), Some("111/05/01"));
    assert_eq!(records[1].year, 44);

    let page = get_reward_and_punish::read_page(REWARDS).expect("a page");
    assert_eq!(page.status.len(), 3);
    assert_eq!(page.detail.len(), 2);
    let answer = get_reward_and_punish::respond(page);
    assert_eq!(answer.message, "Get reward and punish successful");
    assert_eq!(answer.data.detail.len(), 2);
}

#[test]
fn rewards_page_of_another_form_is_not_read() {
    assert_eq!(get_reward_and_punish::get_summarize("<p>nothing</p>").err(), Some(FetchError::FetchFailed));
    assert_eq!(
        get_reward_and_punish::get_summarize("<table><tr><td>one table</td></tr></table>").err(),
        Some(FetchError::FetchFailed)
    );
    let records = get_reward_and_punish::get_detail("<table><tr><td>no data rows</td></tr></table>").expect("records");
    assert!(records.is_empty());
    assert_eq!(
        get_reward_and_punish::get_detail("<table><tr class=\"dataRow\"><td>1</td><td>2</td></tr></table>").err(),
        Some(FetchError::FetchFailed)
    );
    assert_eq!(get_reward_and_punish::summarize(&None).err(), Some(FetchError::FetchFailed));
    assert_eq!(get_reward_and_punish::detail_list(&None).err(), Some(FetchError::FetchFailed));
    let bodies = Some(vec![vec![vec![cell(&["h"])], vec![]], vec![]]);
    assert_eq!(get_reward_and_punish::summarize(&bodies).err(), Some(FetchError::FetchFailed));
    let bodies = Some(vec![vec![vec![], vec![cell(&["x"]), cell(&["k"]), cell(&["+7"])]], vec![]]);
    let counts = get_reward_and_punish::summarize(&bodies).expect("counts");
    assert_eq!(counts.len(), 1);
    assert_eq!(counts[0].kind, "k");
    assert_eq!(counts[0].times, 7);
}

fn lack_page() -> String {
    let names: String = (0..18).map(|i| format!("<td>n{}</td>", i)).collect();
    let upper: String = (0..18).map(|i| format!("<td>{}</td>", i)).collect();
    let lower: String = (0..18).map(|i| format!("<td>{}</td>", i * 10)).collect();
    format!(
        "<html><body>\
<table class=\"padding2 spacing0\">\
<tr class=\"td_03 si_12 le_05 top center\"><td>head</td><td>head</td></tr>\
<tr><td>一</td><td>3/1</td><td>skipped</td><td>曠</td><td></td><td>遲</td></tr>\
<tr><td>二</td></tr></table>\
<table class=\"si_12 collapse padding2 spacing0\">\
<tr><td colspan=\"18\">上學期</td></tr><tr>{names}</tr><tr>{upper}</tr>\
<tr><td colspan=\"18\">下學期</td></tr><tr>{names}</tr><tr>{lower}</tr></table>\
</body></html>",
        names = names,
        upper = upper,
        lower = lower
    )
}

#[test]
fn absences_are_counted_and_listed() {
    let page = get_lack::read_page(&lack_page()).expect("a page");
    assert_eq!(page.total.termUp.len(), 18);
    assert_eq!(page.total.termDown.len(), 18);
    assert_eq!(page.total.termUp[0].name, "n0");
    assert_eq!(page.total.termUp[0].value, 0);
    assert_eq!(page.total.termUp[17].name, "n17");
    assert_eq!(page.total.termUp[17].value, 17);
    assert_eq!(page.total.termDown[3].name, "n3");
    assert_eq!(page.total.termDown[3].value, 30);
    assert_eq!(page.record.len(), 2);
    assert_eq!(page.record[0].week, "一");
    assert_eq!(page.record[0].date, "3/1");
    assert_eq!(page.record[0].data, vec![Some("曠".to_owned()), None, Some("遲".to_owned())]);
    assert_eq!(page.record[1].week, "二");
    assert_eq!(page.record[1].date, "");
    assert!(page.record[1].data.is_empty());
    let answer = get_lack::respond(page);
    assert_eq!(answer.message, "Get lack successful");
    assert_eq!(answer.data.record.len(), 2);
}

#[test]
fn absence_page_of_another_form_is_not_read() {
    assert_eq!(get_lack::read_page("<p>nothing</p>").err(), Some(FetchError::FetchFailed));
    assert_eq!(get_lack::summary(&None).err(), Some(FetchError::FetchFailed));
    assert_eq!(get_lack::summary(&Some(Vec::new())).err(), Some(FetchError::FetchFailed));
    assert_eq!(get_lack::record(&None).err(), Some(FetchError::FetchFailed));
    assert_eq!(get_lack::record(&Some(Vec::new())).err(), Some(FetchError::FetchFailed));
    let short: Vec<Cell> = (0..17).map(|_| cell(&["1"])).collect();
    let full: Vec<Cell> = (0..18).map(|_| cell(&["1"])).collect();
    let rows = vec![full.clone(), full.clone(), full.clone(), short];
    assert_eq!(get_lack::summary(&Some(vec![rows])).err(), Some(FetchError::FetchFailed));
    let rows = vec![full.clone(), full.clone(), full.clone()];
    assert_eq!(get_lack::summary(&Some(vec![rows])).err(), Some(FetchError::FetchFailed));
    let rows = vec![full.clone(), Vec::new(), full.clone(), full.clone(), full.clone()];
    assert_eq!(get_lack::summary(&Some(vec![rows])).err(), Some(FetchError::FetchFailed));
    let mut spanning = full.clone();
    spanning[0].attribute = Some("18".to_owned());
    let rows = vec![spanning, full.clone(), full.clone(), full.clone(), full.clone()];
    assert!(get_lack::summary(&Some(vec![rows])).is_ok());
    assert_eq!(get_lack::KINDS, 18);
}

const EXAMS: &str = "<html><body><select id=\"ddlExamList\">\
<option value=\"\">請選擇</option><option value=\"\">---</option>\
<option value=\"student_subjects_number.asp?action=x&amp;thisyear=111&amp;thisterm=2&amp;number=1102&amp;exam_name=hlhs\">第二次段考</option>\
<option value=\"x.asp?thisyear=300&amp;thisterm=1&amp;number=1101\">平時成績一</option>\
</select></body></html>";

#[test]
fn examinations_on_offer_are_listed() {
    let list = get_available_score::read_page(EXAMS).expect("a list");
    assert_eq!(list.len(), 2);
    assert_eq!(list[0].name, "第二次段考");
    assert_eq!(list[0].year, 111);
    assert_eq!(list[0].term, 2);
    assert_eq!(list[0].testID, "1102");
    assert_eq!(list[0].times, 2);
    assert_eq!(list[0].kind, 1);
    assert_eq!(list[1].name, "平時成績一");
    assert_eq!(list[1].year, 44);
    assert_eq!(list[1].term, 1);
    assert_eq!(list[1].testID, "1101");
    assert_eq!(list[1].times, 1);
    assert_eq!(list[1].kind, 2);
    let answer = get_available_score::respond(list);
    assert_eq!(answer.message, "Get available score data successful");
    assert_eq!(answer.data.len(), 2);
}

#[test]
fn examination_list_of_another_form_is_not_read() {
    assert_eq!(get_available_score::read_page("<p>nothing</p>").err(), Some(FetchError::FetchFailed));
    let one = "<select id=\"ddlExamList\"><option value=\"\">a</option></select>";
    assert_eq!(get_available_score::read_page(one).err(), Some(FetchError::FetchFailed));
    let two = "<select id=\"ddlExamList\"><option value=\"\">a</option><option>b</option></select>";
    assert!(get_available_score::read_page(two).expect("a list").is_empty());
    let no_value = "<select id=\"ddlExamList\"><option>a</option><option>b</option><option>c</option></select>";
    assert_eq!(get_available_score::read_page(no_value).err(), Some(FetchError::FetchFailed));
    let short_id = "<select id=\"ddlExamList\"><option>a</option><option>b</option><option value=\"x?number=110\">c</option></select>";
    assert_eq!(get_available_score::read_page(short_id).err(), Some(FetchError::FetchFailed));
}

#[test]
fn examination_of_the_term_is_the_fourth_byte() {
    assert_eq!(get_available_score::times_of("1102"), Some(2));
    assert_eq!(get_available_score::times_of("11029"), Some(2));
    assert_eq!(get_available_score::times_of("110x"), Some(0));
    assert_eq!(get_available_score::times_of("110+"), Some(0));
    assert_eq!(get_available_score::times_of("110"), None);
    assert_eq!(get_available_score::times_of(""), None);
    assert_eq!(get_available_score::times_of("é12"), Some(2));
    assert_eq!(get_available_score::times_of("1é2"), Some(2));
    assert_eq!(get_available_score::times_of("11é2"), None);
    assert_eq!(get_available_score::times_of("112é"), None);
    assert_eq!(get_available_score::times_of("中1"), Some(1));
    assert_eq!(get_available_score::address_of_option("a?b=1"), "http://example.com/a?b=1");
    let pairs = vec![("number".to_owned(), "1103".to_owned()), ("thisyear".to_owned(), "x".to_owned())];
    let entry = get_available_score::read_entry("平時成績", &pairs).expect("an entry");
    assert_eq!(entry.year, 0);
    assert_eq!(entry.term, 0);
    assert_eq!(entry.times, 3);
    assert_eq!(entry.kind, 2);
    assert_eq!(get_available_score::read_entry("x", &Vec::new()).err(), Some(FetchError::FetchFailed));
}

const SCORES: &str = "<html><body><table id=\"Table1\">\
<tr><td>科目</td><td>成績</td><td>GPA</td></tr>\
<tr><td>國 文</td><td><span style=\"color:red\"> 45\n</span></td><td><span class=\"Unpass\">0</span></td></tr>\
<tr><td>英文</td><td><span>88</span><span>ignored</span></td><td><span>3.5</span></td></tr>\
<tr><td>only one cell</td></tr>\
<tr><td>數學</td><td><span style=\"color:blue\">300</span></td><td><span class=\"unpass\">x</span></td></tr>\
</table>\
<table class=\"scoreTable-inline padding0 spacing2 center\"><tr>\
<td>總分：</td><td class=\"score\"> 133 </td><td>平均：</td><td class=\"Score\">66.5\n</td><td>plain</td></tr></table>\
</body></html>";

#[test]
fn scores_are_read_with_what_was_failed() {
    let page = get_score::read_page(SCORES).expect("a page");
    assert_eq!(page.subjects.len(), 3);
    assert_eq!(page.subjects[0].name, "國文");
    assert_eq!(page.subjects[0].score, 45);
    assert_eq!(page.subjects[0].gpa, "0");
    assert!(page.subjects[0].score_failed);
    assert!(page.subjects[0].gpa_failed);
    assert_eq!(page.subjects[1].name, "英文");
    assert_eq!(page.subjects[1].score, 88);
    assert_eq!(page.subjects[1].gpa, "3.5");
    assert!(!page.subjects[1].score_failed);
    assert!(!page.subjects[1].gpa_failed);
    assert_eq!(page.subjects[2].name, "數學");
    assert_eq!(page.subjects[2].score, 44);
    assert!(!page.subjects[2].score_failed);
    assert!(page.subjects[2].gpa_failed);
    let failed: Vec<(String, String)> = page.unpass.into_iter().map(|fail| (fail.kind, fail.name)).collect();
    assert_eq!(
        failed,
        vec![
            ("score".to_owned(), "國文".to_owned()),
            ("gpa".to_owned(), "國文".to_owned()),
            ("gpa".to_owned(), "數學".to_owned()),
        ]
    );
    let notes: Vec<(String, String)> = page.extra.into_iter().map(|note| (note.kind, note.value)).collect();
    assert_eq!(notes, vec![("總分".to_owned(), "133".to_owned()), ("平均".to_owned(), "66.5".to_owned())]);
}

#[test]
fn score_page_that_is_not_open_or_of_another_form() {
    assert_eq!(get_score::read_page("<html><body>成績尚未開放查詢</body></html>").err(), Some(get_score::ScoreError::NotOpen));
    assert_eq!(
        get_score::read_page("<html><body>&#23578;&#26410;&#38283;&#25918;</body></html>").err(),
        Some(get_score::ScoreError::NotOpen)
    );
    assert_eq!(get_score::read_page("<p>nothing</p>").err(), Some(get_score::ScoreError::Unreadable));
    let no_gpa = "<table id=\"Table1\"><tr><td>h</td></tr><tr><td>a</td><td><span>1</span></td></tr></table>";
    assert_eq!(get_score::read_page(no_gpa).err(), Some(get_score::ScoreError::Unreadable));
    let first_marked = "<table id=\"Table1\"><tr><td>h</td></tr></table><table class=\"scoreTable-inline padding0 spacing2 center\"><tr><td class=\"score\">1</td></tr></table>";
    assert_eq!(get_score::read_page(first_marked).err(), Some(get_score::ScoreError::Unreadable));
    let bare = "<table id=\"Table1\"><tr><td>h</td></tr></table>";
    let page = get_score::read_page(bare).expect("a page");
    assert!(page.subjects.is_empty());
    assert!(page.extra.is_empty());
    assert!(page.unpass.is_empty());
    assert_eq!(get_score::subjects(&None, &None).err(), Some(FetchError::FetchFailed));
    assert_eq!(get_score::notes(&None).err(), Some(FetchError::FetchFailed));
    assert!(get_score::read_subject(&vec![cell(&["a"])], &Vec::new()).expect("passed over").is_none());
    assert_eq!(
        get_score::read_subject(&vec![cell(&["a"]), cell(&["b"])], &vec![vec![], vec![cell(&["1"])]]).err(),
        Some(FetchError::FetchFailed)
    );
    let gathered = get_score::gather_cells(&vec![vec![vec![cell(&["a"])], vec![]], vec![], vec![vec![cell(&["b"]), cell(&["c"])]]]);
    let shown: Vec<String> = gathered.iter().map(|cell| cell.texts.join("")).collect();
    assert_eq!(shown, vec!["a", "b", "c"]);
}

#[test]
fn score_request_names_the_examination() {
    let params = get_score::DataStruct {
        year: "111".to_owned(),
        term: "2".to_owned(),
        times: "1".to_owned(),
        testID: "1102".to_owned(),
    };
    let request = get_score::score_request(&session(), &params);
    assert_eq!(request.method, Method::Get);
    assert_eq!(
        request.url,
        "https://school.example/online/selection_student/student_subjects_number.asp?action=%A6U%A6%A1%A6%A8%C1Z&thisyear=111&thisterm=2&number=1102&exam_name=hlhs"
    );
    assert_eq!(request.headers.len(), 1);
    assert_eq!(request.headers[0].header, "Cookie");
    assert_eq!(request.headers[0].value, "ASPSESSIONID=abc");
    assert!(request.body.is_none());
}

const PROFILE: &str = "<html><body><img src=\"../utility/file1.asp?q=x&amp;id=abc123\"><img src=\"other?id=2\">\
<table class=\"le_04 padding2 spacing2\">\
<tr><td>photo</td><td>姓　名</td><td> 王小明</td><td>性 別</td><td> 女\n</td></tr>\
<tr><td>生日</td><td>1/1</td><td>left over</td></tr><tr></tr></table>\
<table class=\"le_04 padding2\"><tr><td>not</td><td>this</td></tr></table></body></html>";

#[test]
fn profile_fields_and_picture_are_read() {
    let fields = get_user_profile::get_datas(PROFILE).expect("fields");
    let shown: Vec<(String, String)> = fields.into_iter().map(|field| (field.name, field.value)).collect();
    assert_eq!(
        shown,
        vec![
            ("姓名".to_owned(), "王小明".to_owned()),
            ("性別".to_owned(), "女".to_owned()),
            ("生日".to_owned(), "1/1".to_owned()),
        ]
    );
    assert_eq!(get_user_profile::picture_id(PROFILE), Ok("abc123".to_owned()));
    assert_eq!(get_user_profile::picture_id("<p>no image</p>"), Err(FetchError::FetchFailed));
    assert_eq!(get_user_profile::picture_id("<img alt=\"x\">"), Err(FetchError::FetchFailed));
    assert_eq!(get_user_profile::picture_id("<img src=\"a?q=1\">"), Err(FetchError::FetchFailed));
    assert_eq!(get_user_profile::address_of_picture("../../a/../b?id=1"), "http://example.com/a/b?id=1");
    assert_eq!(get_user_profile::picture_id_from(&None), Err(FetchError::FetchFailed));
    let pairs = Some(vec![("q".to_owned(), "x".to_owned()), ("id".to_owned(), "7".to_owned()), ("id".to_owned(), "8".to_owned())]);
    assert_eq!(get_user_profile::picture_id_from(&pairs), Ok("7".to_owned()));
    assert!(get_user_profile::get_datas("<p>nothing</p>").expect("fields").is_empty());
    assert_eq!(get_user_profile::profile_fields(&None).err(), Some(FetchError::FetchFailed));
    assert_eq!(get_user_profile::profile_fields(&Some(Vec::new())).err(), Some(FetchError::FetchFailed));
}

#[test]
fn picture_is_asked_for_and_given_out() {
    let request = get_user_profile::fetch_image(&session(), "abc123");
    assert_eq!(request.method, Method::Get);
    assert_eq!(request.url, "https://school.example/online/utility/file1.asp?q=x&id=abc123");
    assert_eq!(request.headers[0].header, "Cookie");
    assert_eq!(request.headers[0].value, "ASPSESSIONID=abc");
    assert_eq!(get_user_profile::get_image(b"hello").as_deref(), Some("data:image/png;base64,aGVsbG8="));
    assert_eq!(get_user_profile::get_image(b"").as_deref(), Some("data:image/png;base64,"));
    let answer = get_user_profile::respond(Vec::new(), "data:".to_owned());
    assert_eq!(answer.message, "Get user profile successful");
    assert_eq!(answer.data.profileImg, "data:");
    assert_eq!(get_user_profile::BASE64_IMAGE_HEAD, "data:image/png;base64,");
}

#[test]
fn base64_of_bytes() {
    assert_eq!(buffer_to_base64(b""), "");
    assert_eq!(buffer_to_base64(b"f"), "Zg==");
    assert_eq!(buffer_to_base64(b"fo"), "Zm8=");
    assert_eq!(buffer_to_base64(b"foo"), "Zm9v");
    assert_eq!(buffer_to_base64(&[0xff, 0xfe, 0xfd, 0xfc]), "//79/A==");
}

#[test]
fn captcha_is_relayed_under_the_handshake() {
    let credential = LoginInfoAuthToken {
        host: "https://school.example/online".to_owned(),
        site_key: "tok".to_owned(),
        cookie: "ASPSESSIONID=probe".to_owned(),
        need_captcha: true,
        iat: 1,
        exp: 2,
    };
    let request = get_login_captcha::captcha_request(&credential);
    assert_eq!(request.method, Method::Get);
    assert_eq!(request.url, "https://school.example/online/image/vcode.asp");
    assert_eq!(request.headers.len(), 1);
    assert_eq!(request.headers[0].value, "ASPSESSIONID=probe");
    let response = get_login_captcha::captcha_response(vec![0x47, 0x49, 0x46]);
    assert_eq!(response.content_type, "image/gif");
    assert_eq!(response.file, vec![0x47, 0x49, 0x46]);
}

#[test]
fn profile_at_a_glance_comes_from_the_credential() {
    let answer = get_user_info_short::respond(session());
    assert_eq!(answer.message, "Get user profile short successful");
    assert_eq!(answer.data.userName, "王小明");
    assert_eq!(answer.data.className, "一年一班");
    assert_eq!(answer.data.classNumber, "07");
    assert_eq!(answer.data.schoolNumber, "110123");
    assert_eq!(answer.data.gender, "女");
}

#[test]
fn unserved_requests_get_the_body_of_their_status() {
    assert_eq!(catcher_error(400), Some(HTTPError::BadRequest));
    assert_eq!(catcher_error(401), Some(HTTPError::Unauthorized));
    assert_eq!(catcher_error(403), Some(HTTPError::Forbidden));
    assert_eq!(catcher_error(404), Some(HTTPError::FileNotFound));
    assert_eq!(catcher_error(500), Some(HTTPError::ServerError));
    assert_eq!(catcher_error(502), Some(HTTPError::RemoteServiceUnavailable));
    assert_eq!(catcher_error(503), None);
    assert_eq!(catcher_error(200), None);
    let before = get_timestamp_millisec();
    let bodies = [
        (err_bad_request(), "This request is incorrect. Please check your request."),
        (err_unauthorized(), "You have to be authorized to access this api."),
        (err_forbidden(), "You have no premission to access this api."),
        (err_server_error(), "Our server is unreachable this time."),
        (err_bad_gateway(), "Remote service is unavailable"),
    ];
    for (body, message) in bodies {
        assert_eq!(body.message, message);
        assert!(body.wrong.is_none());
        assert!(body.timestamp >= before);
    }
    let body = err_not_found("/v1/nothing?x=1");
    assert_eq!(body.message, "Cannot found api. Please check your api path.");
    let wrong = body.wrong.expect("a place");
    assert_eq!(wrong.api.as_deref(), Some("/v1/nothing?x=1"));
    assert_eq!(wrong.trace.as_deref(), Some(""));
    assert_eq!(wrong.at, None);
    let alive = home("HLHSInfo Open Source");
    assert_eq!(alive.message, "Hello from HLHSInfo Server!");
    assert_eq!(alive.provider, "HLHSInfo Open Source");
    assert!(alive.timestamp >= before);
}

#[test]
fn digests_and_cache_keys() {
    let digest = create_hash(HashAlgorithm::Sha256, b"abc").expect("a digest");
    assert_eq!(vecu8_to_hex_string(&digest).len(), 64);
    assert_eq!(&digest[..4], &[0xba, 0x78, 0x16, 0xbf]);
    let digest = create_hash(HashAlgorithm::Sha512, b"abc").expect("a digest");
    assert_eq!(digest.len(), 64);
    assert_eq!(&digest[..4], &[0xdd, 0xaf, 0x35, 0xa1]);
    assert_eq!(create_hash(HashAlgorithm::Sha384, b"").expect("a digest").len(), 48);
    assert!(create_cache_key("110123", "王小明", "一年一班").is_none());
    assert!(cache_key_from(&vec![0u8; 112]).is_none());
    let bytes: Vec<u8> = (0..113).map(|i| if i % 2 == 0 { b'A' + (i % 26) as u8 } else { i as u8 }).collect();
    let key = cache_key_from(&bytes).expect("a key");
    let low = bytes.to_ascii_lowercase();
    assert_eq!(key.id, low[0..32].to_vec());
    assert_eq!(key.key, low[34..98].to_vec());
    assert_eq!(key.iv, low[81..113].to_vec());
    assert_ne!(key.id, bytes[0..32].to_vec());
}

#[test]
fn numbers_and_texts_of_cells() {
    assert_eq!(text(cell_chars(&cell(&["a", " b", ""]))), "a b");
    assert_eq!(number_of(&chars("42")), 42);
    assert_eq!(number_of(&chars("4 2")), 0);
    assert_eq!(number_of(&chars("")), 0);
    assert_eq!(narrow_u8(255), 255);
    assert_eq!(narrow_u8(256), 0);
    assert_eq!(narrow_u8(300), 300u32 as u8);
    assert_eq!(narrow_u16(65535), 65535);
    assert_eq!(narrow_u16(70000), 70000u32 as u16);
    assert_eq!(text(squeeze(&chars(" a \r\n b \n c\r"))), "abc\r");
    assert!(contains(&chars("color:red;"), &chars("red")));
    assert!(!contains(&chars("color:blue;"), &chars("red")));
    assert!(contains(&chars("x"), &chars("")));
    let copy = Cell { texts: vec!["a".to_owned()], attribute: Some("b".to_owned()), marked: true }.clone_cell();
    assert_eq!(copy.texts, vec!["a".to_owned()]);
    assert_eq!(copy.attribute.as_deref(), Some("b"));
    assert!(copy.marked);
}
