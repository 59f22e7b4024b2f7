use lemmy_bb::env::{
    increased_rate_limit, lemmy_backend, listen_address, parse_port, split_listen_address,
};
use lemmy_bb::model::Site;
use lemmy_bb::site_fairing::SiteData;
use lemmy_bb::utils::{base_url, empty_to_opt, main_site_title, replace_smilies};

fn site(description: Option<&str>) -> Site {
    Site {
        name: "Forum".to_string(),
        description: description.map(|d| d.to_string()),
        actor_scheme: "https".to_string(),
        actor_domain: Some("example.com".to_string()),
        site_setup: true,
        legal_information: None,
        my_user: None,
    }
}

fn site_data() -> SiteData {
    SiteData {
        site: site(None),
        notifications: vec![],
        unread_pm_count: 0,
        current_date_time: String::new(),
        auth: None,
        lang: "en".to_string(),
        lemmybb_version: String::new(),
    }
}

fn replace_smilies_as_a_chain(text: &str, base_url: &str) -> String {
    text.replace(":D", "![]($DOMAIN/assets/images/smilies/icon_e_biggrin.gif)")
        .replace(":)", "![]($DOMAIN/assets/images/smilies/icon_e_smile.gif)")
        .replace(";)", "![]($DOMAIN/assets/images/smilies/icon_e_wink.gif)")
        .replace(":(", "![]($DOMAIN/assets/images/smilies/icon_e_sad.gif)")
        .replace(":oops:", "![]($DOMAIN/assets/images/smilies/icon_redface.gif)")
        .replace(":o", "![]($DOMAIN/assets/images/smilies/icon_e_surprised.gif)")
        .replace(":shock:", "![]($DOMAIN/assets/images/smilies/icon_eek.gif)")
        .replace(":?", "![]($DOMAIN/assets/images/smilies/icon_e_confused.gif)")
        .replace("8-)", "![]($DOMAIN/assets/images/smilies/icon_cool.gif)")
        .replace(":lol:", "![]($DOMAIN/assets/images/smilies/icon_lol.gif)")
        .replace(":x", "![]($DOMAIN/assets/images/smilies/icon_mad.gif)")
        .replace(":P", "![]($DOMAIN/assets/images/smilies/icon_razz.gif)")
        .replace(":cry:", "![]($DOMAIN/assets/images/smilies/icon_cry.gif)")
        .replace(":evil:", "![]($DOMAIN/assets/images/smilies/icon_evil.gif)")
        .replace(":twisted:", "![]($DOMAIN/assets/images/smilies/icon_twisted.gif)")
        .replace(":roll:", "![]($DOMAIN/assets/images/smilies/icon_rolleyes.gif)")
        .replace(":!:", "![]($DOMAIN/assets/images/smilies/icon_exclaim.gif)")
        .replace(":?:", "![]($DOMAIN/assets/images/smilies/icon_question.gif)")
        .replace(":idea:", "![]($DOMAIN/assets/images/smilies/icon_idea.gif)")
        .replace(":arrow:", "![]($DOMAIN/assets/images/smilies/icon_arrow.gif)")
        .replace(":|", "![]($DOMAIN/assets/images/smilies/icon_neutral.gif)")
        .replace(":mrgreen:", "![]($DOMAIN/assets/images/smilies/icon_mrgreen.gif)")
        .replace(":geek:", "![]($DOMAIN/assets/images/smilies/icon_e_geek.gif)")
        .replace(":ugeek:", "![]($DOMAIN/assets/images/smilies/icon_e_ugeek.gif)")
        .replace("$DOMAIN", base_url)
}

#[test]
fn base_url_is_scheme_and_domain() {
    assert_eq!(base_url(&site_data()), "https://example.com");
}

#[test]
fn smilies_become_pictures() {
    assert_eq!(
        replace_smilies("hi :)", &site_data()),
        "hi ![](https://example.com/assets/images/smilies/icon_e_smile.gif)"
    );
    assert_eq!(
        replace_smilies(":oops: :o", &site_data()),
        "![](https://example.com/assets/images/smilies/icon_redface.gif) \
         ![](https://example.com/assets/images/smilies/icon_e_surprised.gif)"
    );
    assert_eq!(replace_smilies("plain text", &site_data()), "plain text");
    assert_eq!(replace_smilies("", &site_data()), "");
}

#[test]
fn smilies_are_replaced_one_kind_after_the_other() {
    let samples = [
        ":D :) ;) :( :oops: :o :shock: :? 8-) :lol: :x :P",
        ":cry: :evil: :twisted: :roll: :!: :?: :idea: :arrow: :| :mrgreen: :geek: :ugeek:",
        ":?::?:",
        "$DOMAIN :D",
        "a:Db:)c",
        ":ooops: :::))) 8-) 8-):",
        "https://example.com/x:y :P:P",
    ];
    for text in samples {
        assert_eq!(
            replace_smilies(text, &site_data()),
            replace_smilies_as_a_chain(text, "https://example.com"),
            "{:?}",
            text
        );
    }
}

#[test]
fn blank_fields_are_no_value() {
    assert_eq!(empty_to_opt(String::new()), None);
    assert_eq!(empty_to_opt("   ".to_string()), None);
    assert_eq!(empty_to_opt("\t\n".to_string()), None);
    assert_eq!(empty_to_opt(" a ".to_string()), Some(" a ".to_string()));
    assert_eq!(empty_to_opt("text".to_string()), Some("text".to_string()));
}

#[test]
fn site_title_has_the_description() {
    assert_eq!(main_site_title(&site(Some("all about it"))), "Forum - all about it");
    assert_eq!(main_site_title(&site(None)), "Forum");
    assert_eq!(main_site_title(&site(Some(""))), "Forum - ");
}

#[test]
fn settings_default_where_not_set() {
    assert_eq!(listen_address(None), "127.0.0.1:1244");
    assert_eq!(listen_address(Some("0.0.0.0:80".to_string())), "0.0.0.0:80");
    assert_eq!(lemmy_backend(None), "http://localhost:8536");
    assert_eq!(lemmy_backend(Some("http://lemmy:8536".to_string())), "http://lemmy:8536");
    assert!(!increased_rate_limit(None));
    assert!(!increased_rate_limit(Some(String::new())));
    assert!(increased_rate_limit(Some("1".to_string())));
    assert!(increased_rate_limit(Some("false".to_string())));
}

#[test]
fn listen_address_is_split_at_the_first_colon() {
    assert_eq!(
        split_listen_address("127.0.0.1:1244"),
        Some(("127.0.0.1".to_string(), "1244".to_string()))
    );
    assert_eq!(split_listen_address("a:b:c"), Some(("a".to_string(), "b:c".to_string())));
    assert_eq!(split_listen_address(":"), Some((String::new(), String::new())));
    assert_eq!(split_listen_address("localhost"), None);
    assert_eq!(split_listen_address(""), None);
    for text in ["127.0.0.1:1244", "a:b:c", ":", "x", "", "::1"] {
        let expected = text.split_once(':').map(|(a, b)| (a.to_string(), b.to_string()));
        assert_eq!(split_listen_address(text), expected);
    }
}

#[test]
fn ports_are_read_as_std_reads_them() {
    let samples = [
        "0", "80", "1244", "65535", "65536", "99999", "00080", "+80", "+", "", "-1", "8o", " 80",
        "80 ", "++1", "4294967376", "000000000000000000000065535", "18446744073709551696", "٣",
    ];
    for text in samples {
        assert_eq!(parse_port(text), text.parse::<u16>().ok(), "{:?}", text);
    }
    assert_eq!(parse_port("1244"), Some(1244));
    assert_eq!(parse_port("65536"), None);
}
