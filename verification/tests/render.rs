use china_unicom_rs::data::ChinaUnicomData;
use china_unicom_rs::template::{render, TemplateError};
use china_unicom_rs::timefmt::SnapshotTime;

fn time_at(unix_seconds: i64) -> SnapshotTime {
    SnapshotTime {
        unix_seconds,
        year: 2024,
        month: 5,
        day: 17,
        hour: 8,
        minute: 30,
        second: 5,
    }
}

fn snapshot() -> ChinaUnicomData {
    ChinaUnicomData {
        package_name: "套餐A".to_string(),
        time: time_at(1_700_000_000),
        sum_flow_used: 300,
        limit_flow_used: 100,
        non_limit_flow_used: 200,
        free_flow_used: 50,
        non_free_flow_used: 250,
        sum_flow: 1000,
        limit_flow: 400,
        non_limit_flow: 600,
        sum_voice_used: 30,
        limit_voice_used: 10,
        non_limit_voice_used: 20,
        sum_voice: 100,
        limit_voice: 40,
        non_limit_voice: 60,
    }
}

fn bindings(pairs: &[(&str, &str)]) -> Vec<(String, String)> {
    pairs.iter().map(|(p, r)| (p.to_string(), r.to_string())).collect()
}

const VOCAB: [(&str, &str); 22] = [
    ("[时间]", "2024-05-17 08:30:05"),
    ("[流量总量]", "10.00G"),
    ("[流量定向总量]", "4.00G"),
    ("[流量通用总量]", "6.00G"),
    ("[流量总用量]", "3.00G"),
    ("[流量免费用量]", "0.50G"),
    ("[流量收费用量]", "2.50G"),
    ("[流量定向用量]", "1.00G"),
    ("[流量通用用量]", "2.00G"),
    ("[通话总用量]", "30.00分钟"),
    ("[通话定向用量]", "10.00分钟"),
    ("[通话通用用量]", "20.00分钟"),
    ("[通话总量]", "100.00分钟"),
    ("[通话定向总量]", "40.00分钟"),
    ("[通话通用总量]", "60.00分钟"),
    ("[流量总余量]", "7.00G"),
    ("[流量定向余量]", "3.00G"),
    ("[流量通用余量]", "4.00G"),
    ("[通话总余量]", "70.00分钟"),
    ("[通话定向余量]", "30.00分钟"),
    ("[通话通用余量]", "40.00分钟"),
    ("[套餐名称]", "套餐A"),
];

// A template of literal text only comes back unchanged.
#[test]
fn literal_template_round_trips() {
    let b = bindings(&[("[a]", "1"), ("[b]", "2")]);
    let tpl = "纯文本 %0a plain text, no brackets that match";
    assert_eq!(render(tpl, &b).unwrap(), tpl);
    assert_eq!(render("", &b).unwrap(), "");
}

#[test]
fn repeated_placeholders_substitute_every_time() {
    let b = bindings(&[("[a]", "1"), ("[bb]", "22")]);
    assert_eq!(render("[a][bb][a][bb][a]", &b).unwrap(), "1221221");
    assert_eq!(render("x[a]y[a]z", &b).unwrap(), "x1y1z");
}

#[test]
fn longest_match_wins_at_each_position() {
    let b = bindings(&[("ab", "X"), ("abc", "Y")]);
    assert_eq!(render("abcabd", &b).unwrap(), "YXd");
    assert_eq!(render("ababc", &b).unwrap(), "XY");
}

#[test]
fn substituted_text_is_not_rescanned() {
    let b = bindings(&[("[a]", "[b]"), ("[b]", "!")]);
    assert_eq!(render("[a][b]", &b).unwrap(), "[b]!");
}

#[test]
fn empty_placeholder_is_refused() {
    let b = bindings(&[("[a]", "1"), ("", "2")]);
    assert_eq!(render("x", &b), Err(TemplateError::EmptyPlaceholder));
}

#[test]
fn duplicate_placeholder_is_refused() {
    let b = bindings(&[("[a]", "1"), ("[b]", "2"), ("[a]", "3")]);
    assert_eq!(render("x", &b), Err(TemplateError::DuplicatePlaceholder));
}

#[test]
fn format_substitutes_known_placeholders() {
    let s = snapshot();
    let out = s
        .format("[时间] [套餐名称] 总[流量总量] 余[流量总余量] 定向余[流量定向余量] 话余[通话总余量] [流量总量]")
        .unwrap();
    assert_eq!(
        out,
        "2024-05-17 08:30:05 套餐A 总10.00G 余7.00G 定向余3.00G 话余70.00分钟 10.00G"
    );
}

// The whole vocabulary, each placeholder twice: both occurrences get the
// same substitution.
#[test]
fn format_whole_vocabulary_twice() {
    let s = snapshot();
    let mut tpl = String::new();
    let mut expected = String::new();
    for _round in 0..2 {
        for (pat, rep) in VOCAB.iter() {
            tpl.push_str(pat);
            tpl.push('|');
            expected.push_str(rep);
            expected.push('|');
        }
    }
    assert_eq!(s.format(&tpl).unwrap(), expected);
}

// Delta placeholders are not in the snapshot-only table: they pass
// through unexpanded rather than failing.
#[test]
fn format_leaves_delta_placeholders_alone() {
    let s = snapshot();
    assert_eq!(s.format("[区间时长]X").unwrap(), "[区间时长]X");
}

#[test]
fn format_with_last_substitutes_deltas() {
    let reference = snapshot();
    let mut current = snapshot();
    current.sum_flow_used = 350;
    current.free_flow_used = 80;
    current.non_free_flow_used = 270;
    current.time = time_at(1_700_005_400);
    let out = current
        .format_with_last("[区间时长] 免[区间流量免费用量] 总[区间流量总用量] 收[区间流量收费用量]", &reference)
        .unwrap();
    assert_eq!(out, "0天01时30分 免0.30G 总0.50G 收0.20G");
}

// A shrunken counter shows a zero delta in the rendered message, never a
// negative quantity.
#[test]
fn format_with_last_clamps_negative_deltas() {
    let reference = snapshot();
    let mut current = snapshot();
    current.free_flow_used = 10;
    let out = current.format_with_last("[区间流量免费用量]", &reference).unwrap();
    assert_eq!(out, "0.00G");
}

#[test]
fn format_default_renders_summary() {
    let s = snapshot();
    assert_eq!(
        s.format_default().unwrap(),
        "2024-05-17 08:30:05 套餐A%0a流量: 已用3.00G/共10.00G, 余7.00G%0a通话: 已用30.00分钟/共100.00分钟, 余70.00分钟"
    );
}

#[test]
fn format_default_with_last_renders_deltas() {
    let reference = snapshot();
    let mut current = snapshot();
    current.sum_flow_used = 350;
    current.free_flow_used = 80;
    current.non_free_flow_used = 270;
    current.time = time_at(1_700_005_400);
    assert_eq!(
        current.format_default_with_last(&reference).unwrap(),
        "0天01时30分 用流量0.50G(免0.30G, 收0.20G)%0a流量余7.00G, 通话余70.00分钟"
    );
}

// The engine substitutes exactly as a multi-pattern automaton does over
// this (mutually non-prefixing) vocabulary.
#[test]
fn render_agrees_with_multi_pattern_automaton() {
    let pats: Vec<&str> = VOCAB.iter().map(|(p, _)| *p).collect();
    let reps: Vec<&str> = VOCAB.iter().map(|(_, r)| *r).collect();
    let b: Vec<(String, String)> =
        VOCAB.iter().map(|(p, r)| (p.to_string(), r.to_string())).collect();
    let tpl = "头[流量总量]中间[时间]x[套餐名称][流量总量]尾 [没有这个] done";
    let ac = aho_corasick::AhoCorasick::new(pats).unwrap();
    assert_eq!(render(tpl, &b).unwrap(), ac.replace_all(tpl, &reps));
}
