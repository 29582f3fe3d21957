use coldvox_text_injection::injectors::{find_paste_action_described, to_ascii_lowercase};
use coldvox_text_injection::manager::next_chunk_end;
use coldvox_text_injection::window::{
    app_id_from_accessible, choose_app_id, find_focused_window, parse_active_window_id, parse_wm_class,
    split_nth, WindowNode,
};

#[test]
fn xprop_active_window_id() {
    let out = "_NET_ACTIVE_WINDOW(WINDOW): window id # 0x3a00007\n";
    assert_eq!(parse_active_window_id(out), Some("0x3a00007".to_string()));
    assert_eq!(parse_active_window_id("no marker here"), None);
}

#[test]
fn xprop_wm_class() {
    let out = "WM_CLASS(STRING) = \"navigator\", \"firefox\"\n";
    assert_eq!(parse_wm_class(out), Some("firefox".to_string()));
    assert_eq!(parse_wm_class("WM_CLASS:  not found."), None);
}

#[test]
fn split_nth_matches_str_split() {
    let cases = [("a,b,,c", ","), ("abc", ","), ("", ","), (",x,", ","), ("a::b::c", "::")];
    for (s, sep) in cases.iter() {
        for n in 0..5usize {
            let expected = s.split(sep).nth(n).map(|f| f.to_string());
            assert_eq!(split_nth(s, sep, n), expected, "{:?} {:?} {}", s, sep, n);
        }
    }
}

#[test]
fn focused_window_depth_first() {
    let leaf = |focused: bool, id: Option<&str>| WindowNode {
        focused,
        app_id: id.map(|s| s.to_string()),
        nodes: vec![],
    };
    let tree = WindowNode {
        focused: false,
        app_id: None,
        nodes: vec![
            WindowNode { focused: false, app_id: None, nodes: vec![leaf(false, Some("a")), leaf(true, None)] },
            WindowNode { focused: false, app_id: None, nodes: vec![leaf(true, Some("kitty"))] },
            leaf(true, Some("later")),
        ],
    };
    assert_eq!(find_focused_window(&tree), Some("kitty".to_string()));
    assert_eq!(find_focused_window(&leaf(false, Some("x"))), None);
}

#[test]
fn accessible_app_id() {
    assert_eq!(app_id_from_accessible(Some(":1.42"), "/org/a11y/atspi/accessible/7"), Some(":1.42".to_string()));
    assert_eq!(app_id_from_accessible(Some(""), "/org/a11y/atspi/accessible/7"), Some("7".to_string()));
    assert_eq!(app_id_from_accessible(None, "plain"), Some("plain".to_string()));
    assert_eq!(app_id_from_accessible(None, "/ends/with/"), None);
    assert_eq!(choose_app_id(None, Some("firefox".to_string())), "firefox");
    assert_eq!(choose_app_id(Some("gedit".to_string()), Some("firefox".to_string())), "gedit");
    assert_eq!(choose_app_id(None, None), "unknown");
}

#[test]
fn chunk_ends_on_char_boundaries() {
    let text = "aé€b";
    assert_eq!(next_chunk_end(text, 0, 2), 3);
    assert_eq!(next_chunk_end(text, 0, 1), 1);
    assert_eq!(next_chunk_end(text, 3, 1), 6);
    assert_eq!(next_chunk_end(text, 6, 100), text.len());
    assert_eq!(next_chunk_end(text, 0, usize::MAX), text.len());
}

#[test]
fn paste_action_by_name_or_description() {
    let actions = vec![
        ("copy".to_string(), "Copy selection".to_string()),
        ("act2".to_string(), "PASTE from clipboard".to_string()),
    ];
    assert_eq!(find_paste_action_described(&actions), Some(1));
    assert_eq!(find_paste_action_described(&vec![("x".to_string(), "y".to_string())]), None);
    assert_eq!(to_ascii_lowercase("ÀBc"), "Àbc");
}
