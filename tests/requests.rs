use chilltui::api::{urlencode, ChillClient, PutioClient};
use chilltui::config::{check_credential, Config, InputProblem, MIN_API_KEY_LEN, MIN_TOKEN_LEN};
use chilltui::models::PutioFile;
use chilltui::panel::toggle_indexer;

#[test]
fn urlencode_keeps_unreserved_bytes() {
    assert_eq!(urlencode("AZaz09-_.~"), "AZaz09-_.~");
    assert_eq!(urlencode(""), "");
}

#[test]
fn urlencode_escapes_other_bytes() {
    assert_eq!(urlencode("ubuntu 22.04"), "ubuntu%2022.04");
    assert_eq!(urlencode("a/b&c=d"), "a%2Fb%26c%3Dd");
    assert_eq!(urlencode("é"), "%C3%A9");
}

#[test]
fn search_url_with_all_indexers() {
    let c = ChillClient::new("key".to_string(), None);
    let all = vec!["all".to_string()];
    assert_eq!(
        c.search_url("ubuntu", Some(&all), true),
        "https://chill.institute/api/v3/search?keyword=ubuntu&filterNastyResults=true"
    );
}

#[test]
fn search_url_with_chosen_indexers() {
    let c = ChillClient::new("key".to_string(), Some("tok".to_string()));
    let ix = vec!["eztv".to_string(), "yts".to_string()];
    assert_eq!(
        c.search_url("a b", Some(&ix), false),
        "https://chill.institute/api/v3/search?keyword=a%20b&indexer=eztv,yts&filterNastyResults=false"
    );
    let none: Vec<String> = Vec::new();
    assert_eq!(
        c.search_url("x", Some(&none), false),
        "https://chill.institute/api/v3/search?keyword=x&filterNastyResults=false"
    );
    assert_eq!(c.search_url("x", None, true), "https://chill.institute/api/v3/search?keyword=x&filterNastyResults=true");
    assert_eq!(c.api_key(), "key");
    assert_eq!(c.putio_token().as_deref(), Some("tok"));
}

#[test]
fn upload_client_requests() {
    let c = PutioClient::new("SECRET-REDACTED".to_string());
    assert_eq!(c.endpoint("/account/info"), "https://api.put.io/v2/account/info");
    assert_eq!(c.bearer(), "Bearer SECRET-REDACTED");
    assert_eq!(
        PutioClient::get_oauth_url("42"),
        "https://app.put.io/v2/oauth2/authenticate?client_id=42&response_type=code&redirect_uri=urn:ietf:wg:oauth:2.0:oob"
    );
}

#[test]
fn find_folder_takes_first_match() {
    let files = vec![
        PutioFile { id: 1, name: "Movies".to_string(), parent_id: 0 },
        PutioFile { id: 2, name: "ChillTUI".to_string(), parent_id: 0 },
        PutioFile { id: 3, name: "ChillTUI".to_string(), parent_id: 0 },
    ];
    assert_eq!(PutioClient::find_folder(&files, "ChillTUI"), Some(2));
    assert_eq!(PutioClient::find_folder(&files, "chilltui"), None);
    assert_eq!(PutioClient::find_folder(&[], "x"), None);
}

#[test]
fn setup_needed_without_credentials() {
    let mut c = Config {
        chill_api_key: Some("k".to_string()),
        putio_oauth_token: None,
        putio_folder_id: None,
        putio_folder_name: "ChillTUI".to_string(),
    };
    assert!(c.needs_setup());
    c.putio_oauth_token = Some("t".to_string());
    assert!(!c.needs_setup());
    c.chill_api_key = None;
    assert!(c.needs_setup());
}

#[test]
fn credential_checks() {
    assert_eq!(check_credential("", MIN_API_KEY_LEN), Err(InputProblem::Empty));
    assert_eq!(check_credential("short", MIN_API_KEY_LEN), Err(InputProblem::TooShort));
    assert_eq!(check_credential("0123456789", MIN_API_KEY_LEN), Ok(()));
    assert_eq!(check_credential("0123456789", MIN_TOKEN_LEN), Err(InputProblem::TooShort));
    assert_eq!(check_credential("01234567890123456789", MIN_TOKEN_LEN), Ok(()));
}

#[test]
fn indexer_toggle_all_then_specific() {
    let all = toggle_indexer(&vec![3, 5], 0);
    assert_eq!(all, vec![0]);
    let one = toggle_indexer(&all, 2);
    assert_eq!(one, vec![2]);
    assert_eq!(toggle_indexer(&one, 2), vec![0]);
}

#[test]
fn indexer_toggle_adds_and_removes() {
    let a = toggle_indexer(&vec![2], 5);
    assert_eq!(a, vec![2, 5]);
    assert_eq!(toggle_indexer(&a, 2), vec![5]);
    assert_eq!(toggle_indexer(&a, 7), vec![2, 5, 7]);
}
