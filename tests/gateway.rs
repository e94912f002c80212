use anime_gateway::dispatch::{decode_request, finish, operation_from_pairs, OpKind, Route, Shape};
use anime_gateway::html::{decimal_text, escape_html};
use anime_gateway::model::{
    Config, EpisodeRef, GatewayError, SearchEntry, SeriesInfo, Source, Upstream,
};
use anime_gateway::render::{
    render_episode_options, render_index_link, render_info, render_search_options,
};
use anime_gateway::rules::{filter_sub, select_source};

fn config() -> Config {
    Config::new(
        "http://localhost:3000/anime/gogoanime/".to_string(),
        "https://haiku.leafatshredder.xyz/player/#".to_string(),
    )
}

fn entry(id: &str, title: &str, track: &str) -> SearchEntry {
    SearchEntry { id: id.to_string(), title: title.to_string(), sub_or_dub: track.to_string() }
}

fn source(url: &str, quality: &str) -> Source {
    Source { url: url.to_string(), quality: quality.to_string() }
}

fn episode(id: &str) -> EpisodeRef {
    EpisodeRef { id: id.to_string() }
}

fn series(episodes: Vec<EpisodeRef>) -> SeriesInfo {
    SeriesInfo {
        title: "Naruto".to_string(),
        image: "http://img/n.png".to_string(),
        release_date: Some("2002".to_string()),
        description: Some("A ninja.".to_string()),
        status: "Completed".to_string(),
        total_episodes: 220,
        episodes,
    }
}

#[test]
fn search_scenario_keeps_only_sub() {
    let op = decode_request(Route::Search, "searchbox=naruto").unwrap();
    assert_eq!(op.kind, OpKind::Search);
    assert_eq!(op.argument, "naruto");
    assert_eq!(op.upstream_url(&config()), "http://localhost:3000/anime/gogoanime/naruto");
    assert_eq!(op.shape(), Shape::SearchResults);
    let decoded = Upstream::Search(vec![
        entry("a1", "Naruto", "sub"),
        entry("a2", "Naruto Dub", "dub"),
    ]);
    let out = finish(&config(), op.kind, Some(decoded)).unwrap();
    assert_eq!(out, "<option value=\"a1\">Naruto</option>");
}

#[test]
fn select_scenario_lists_episodes() {
    let op = decode_request(Route::Select, "select=a1").unwrap();
    assert_eq!(op.kind, OpKind::Select);
    assert_eq!(op.upstream_path(), "info/a1");
    assert_eq!(op.shape(), Shape::SeriesDetail);
    let out = finish(&config(), op.kind, Some(Upstream::Series(series(vec![episode("e1")]))));
    assert_eq!(out.unwrap(), "<option value=\"e1\">1</option>");
}

#[test]
fn index_scenario_single_default() {
    let op = decode_request(Route::Index, "index=e1").unwrap();
    assert_eq!(op.kind, OpKind::Index);
    assert_eq!(op.upstream_path(), "watch/e1");
    assert_eq!(op.shape(), Shape::SourceList);
    let sources = vec![source("http://x/default.m3u8", "default")];
    let out = finish(&config(), op.kind, Some(Upstream::Watch(sources))).unwrap();
    assert_eq!(
        out,
        "<a href=\"https://haiku.leafatshredder.xyz/player/#http://x/default.m3u8\">enjoy!</a>"
    );
}

#[test]
fn index_scenario_two_defaults_uses_backup() {
    let sources = vec![
        source("http://x/d1.m3u8", "default"),
        source("http://x/d2.m3u8", "default"),
        source("http://x/b.m3u8", "backup"),
    ];
    let out = finish(&config(), OpKind::Index, Some(Upstream::Watch(sources))).unwrap();
    assert_eq!(out, "<a href=\"https://haiku.leafatshredder.xyz/player/#http://x/b.m3u8\">enjoy!</a>");
}

#[test]
fn index_scenario_no_sources_is_not_found() {
    let err = finish(&config(), OpKind::Index, Some(Upstream::Watch(vec![]))).unwrap_err();
    assert_eq!(err, GatewayError::NoSource);
    assert_eq!(err.status(), 404);
    // a later request is still served
    let out = finish(&config(), OpKind::Index, Some(Upstream::Watch(vec![source("u", "default")])));
    assert!(out.is_ok());
}

#[test]
fn filter_sub_keeps_order() {
    let kept = filter_sub(vec![
        entry("1", "a", "dub"),
        entry("2", "b", "sub"),
        entry("3", "c", "dub"),
        entry("4", "d", "sub"),
        entry("5", "e", "SUB"),
    ]);
    let ids: Vec<&str> = kept.iter().map(|e| e.id.as_str()).collect();
    assert_eq!(ids, vec!["2", "4"]);
    assert!(filter_sub(vec![]).is_empty());
}

#[test]
fn select_source_single_default() {
    let s = vec![source("b", "backup"), source("d", "default"), source("h", "hls")];
    assert_eq!(select_source(&s).unwrap(), "d");
}

#[test]
fn select_source_no_default_takes_first_backup() {
    let s = vec![source("h", "hls"), source("b1", "backup"), source("b2", "backup")];
    assert_eq!(select_source(&s).unwrap(), "b1");
}

#[test]
fn select_source_many_defaults_without_backup_fails() {
    let s = vec![source("d1", "default"), source("d2", "default")];
    assert_eq!(select_source(&s), Err(GatewayError::NoSource));
    assert_eq!(select_source(&vec![]), Err(GatewayError::NoSource));
}

#[test]
fn malformed_bodies_are_rejected() {
    assert_eq!(decode_request(Route::Search, "").unwrap_err(), GatewayError::MalformedRequest);
    assert_eq!(
        decode_request(Route::Search, "select=a1").unwrap_err(),
        GatewayError::MalformedRequest
    );
    assert_eq!(decode_request(Route::Index, "index=").unwrap_err(), GatewayError::MalformedRequest);
    assert_eq!(decode_request(Route::Query, "info=a1").unwrap_err(), GatewayError::MalformedRequest);
    assert_eq!(GatewayError::MalformedRequest.status(), 400);
    let pairs: Vec<(String, String)> = vec![];
    assert_eq!(
        operation_from_pairs(Route::Select, &pairs).unwrap_err(),
        GatewayError::MalformedRequest
    );
}

#[test]
fn only_first_pair_counts() {
    let op = decode_request(Route::Info, "select=a%201&index=zz").unwrap();
    assert_eq!(op.kind, OpKind::Info);
    assert_eq!(op.argument, "a 1");
    assert_eq!(op.upstream_path(), "info/a 1");
}

#[test]
fn query_route_dispatches_on_key() {
    assert_eq!(decode_request(Route::Query, "search=bleach").unwrap().kind, OpKind::Search);
    assert_eq!(decode_request(Route::Query, "select=a1").unwrap().kind, OpKind::Select);
    assert_eq!(decode_request(Route::Query, "index=e1").unwrap().kind, OpKind::Index);
}

#[test]
fn undecodable_answer_is_malformed() {
    for kind in [OpKind::Search, OpKind::Select, OpKind::Info, OpKind::Index] {
        let err = finish(&config(), kind, None).unwrap_err();
        assert_eq!(err, GatewayError::DecodeMalformed);
        assert_eq!(err.status(), 502);
    }
    let wrong = finish(&config(), OpKind::Index, Some(Upstream::Search(vec![])));
    assert_eq!(wrong.unwrap_err(), GatewayError::DecodeMalformed);
    assert_eq!(GatewayError::Transport.status(), 502);
}

#[test]
fn rendering_is_deterministic() {
    let entries = vec![entry("a1", "Naruto", "sub"), entry("a3", "Bleach", "sub")];
    assert_eq!(render_search_options(&entries), render_search_options(&entries));
    let info = series(vec![episode("e1"), episode("e2")]);
    assert_eq!(render_info(&info), render_info(&info));
    assert_eq!(
        render_search_options(&entries),
        "<option value=\"a1\">Naruto</option><option value=\"a3\">Bleach</option>"
    );
}

#[test]
fn episodes_are_numbered_by_position() {
    let eps: Vec<EpisodeRef> = (1..=12).map(|k| episode(&format!("e{}", k))).collect();
    let out = render_episode_options(&eps);
    assert!(out.starts_with("<option value=\"e1\">1</option><option value=\"e2\">2</option>"));
    assert!(out.ends_with("<option value=\"e12\">12</option>"));
    assert_eq!(render_episode_options(&vec![]), "");
}

#[test]
fn info_block_with_all_fields() {
    let out = render_info(&series(vec![]));
    let expected = "\n        <div id=info>\n            <hr />\n            <img src=\"http://img/n.png\" class=\"img\" style=\"float:right;\"/>\n            <div class=\"info\" style=\"float:left\">\n                <h1 class=\"title\">Naruto</h1>\n                <div class=\"fields\">\n                    <i>episodes: 220\n        <br>release year: 2002\n        <br>status: completed</i>\n    </div>\n    <p>A ninja.</p>\n        </div>\n    </div>\n    ";
    assert_eq!(out, expected);
}

#[test]
fn info_block_without_optional_fields() {
    let mut info = series(vec![]);
    info.release_date = None;
    info.description = None;
    info.status = "ONGOING".to_string();
    let out = finish(&config(), OpKind::Info, Some(Upstream::Series(info))).unwrap();
    assert!(!out.contains("release year"));
    assert!(!out.contains("<p>"));
    assert!(out.contains("<br>status: ongoing</i>"));
}

#[test]
fn upstream_text_is_escaped() {
    assert_eq!(escape_html("a<b>&\"c'"), "a&lt;b&gt;&amp;&quot;c&#39;");
    assert_eq!(escape_html(""), "");
    assert_eq!(escape_html("日本"), "日本");
    let out = render_search_options(&vec![entry("x\"y", "<i>", "sub")]);
    assert_eq!(out, "<option value=\"x&quot;y\">&lt;i&gt;</option>");
    let link = render_index_link(&config(), "http://x/a?b=1&c=2");
    assert_eq!(
        link,
        "<a href=\"https://haiku.leafatshredder.xyz/player/#http://x/a?b=1&amp;c=2\">enjoy!</a>"
    );
}

#[test]
fn decimal_values() {
    assert_eq!(decimal_text(0), "0");
    assert_eq!(decimal_text(7), "7");
    assert_eq!(decimal_text(10), "10");
    assert_eq!(decimal_text(18446744073709551615), "18446744073709551615");
}

#[test]
fn error_messages() {
    assert_eq!(GatewayError::MalformedRequest.message(), "malformed request");
    assert_eq!(GatewayError::Transport.message(), "upstream unreachable");
    assert_eq!(GatewayError::DecodeMalformed.message(), "malformed upstream response");
    assert_eq!(GatewayError::NoSource.message(), "no playable source");
}
