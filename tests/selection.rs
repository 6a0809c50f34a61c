use igame::availability::ClientInfoManager;
use igame::cache::{CacheManager, FRESHNESS_WINDOW_MS};
use igame::config::MSGraphConfig;
use igame::error::ResponseError;
use igame::group::{ClientGroup, ProviderGroup};
use igame::pool::{collect_failed, ResourceProvider, PAUSE_DURATION_MS};
use igame::provider::{classify_link_response, ProviderError, ProviderFailure, SendAttempts};
use igame::refresh::{RefreshSchedule, REFRESH_PASSES, STARTUP_TOKEN_ROUNDS};
use igame::resolve::{begin, settle};
use igame::select::{Action, ResolveError, Selection};

fn config(id: &str) -> MSGraphConfig {
    MSGraphConfig {
        id: id.to_string(),
        connect_timeout: 10,
        whole_timeout: 30,
        pool_idle_timeout: 60,
        group: ProviderGroup::Fast,
        region: "global".to_string(),
        client_id: format!("client-{}", id),
        client_secret: "SECRET-REDACTED".to_string(),
        drive_url: "me/drive".to_string(),
        redirect_url: "http://localhost".to_string(),
        refresh_token: format!("token-{}", id),
    }
}

fn pool_of(ids: &[&str], now: u64) -> ResourceProvider {
    let configs: Vec<MSGraphConfig> = ids.iter().map(|id| config(id)).collect();
    ResourceProvider::new_at(&configs, now)
}

fn strings(ids: &[&str]) -> Vec<String> {
    ids.iter().map(|s| s.to_string()).collect()
}

/// Drives one request the way the service does: cache first, then the
/// candidates in order, each answered by `upstream`; records who was asked.
fn resolve(
    cache: &mut CacheManager,
    pool: &mut ResourceProvider,
    group: ClientGroup,
    path: &str,
    candidates: &[&str],
    now: u64,
    upstream: &dyn Fn(&str) -> Option<(u16, String)>,
    asked: &mut Vec<String>,
) -> Result<String, ResolveError> {
    let mut selection = match begin(cache, &group, path, strings(candidates), now) {
        Ok(url) => return Ok(url),
        Err(selection) => selection,
    };
    loop {
        match selection.seek(pool, now) {
            Action::Finish(r) => return r,
            Action::Query(id) => {
                asked.push(id.clone());
                let reply = upstream(&id);
                let outcome = classify_link_response(reply.as_ref().map(|(s, b)| (*s, b.as_str())));
                if let Some(r) = selection.report(pool, outcome, now) {
                    settle(cache, &group, path, &r, now);
                    return r;
                }
            }
        }
    }
}

fn link_body(url: &str) -> String {
    format!("{{\"@microsoft.graph.downloadUrl\":\"{}\"}}", url)
}

#[test]
fn paused_candidate_is_skipped_and_later_ones_untouched() {
    let mut pool = pool_of(&["a", "b", "c"], 0);
    let mut cache = CacheManager::new();
    pool.pause_client_at("a", 10);
    let upstream = |id: &str| -> Option<(u16, String)> {
        match id {
            "b" => Some((200, link_body("https://host/b"))),
            _ => panic!("provider {} must not be asked", id),
        }
    };
    let mut asked = Vec::new();
    let r = resolve(&mut cache, &mut pool, ClientGroup::Normal, "/f", &["a", "b", "c"], 20, &upstream, &mut asked);
    assert_eq!(r, Ok("https://host/b".to_string()));
    assert_eq!(asked, vec!["b".to_string()]);
}

#[test]
fn not_found_stops_at_first_candidate_without_pausing() {
    let mut pool = pool_of(&["a", "b"], 0);
    let mut cache = CacheManager::new();
    let upstream = |id: &str| -> Option<(u16, String)> {
        match id {
            "a" => Some((400, "{\"error\":\"itemNotFound\"}".to_string())),
            _ => panic!("provider {} must not be asked", id),
        }
    };
    let mut asked = Vec::new();
    let r = resolve(&mut cache, &mut pool, ClientGroup::Normal, "/missing", &["a", "b"], 5, &upstream, &mut asked);
    assert_eq!(r, Err(ResolveError::ResourceNotFound));
    assert_eq!(asked, vec!["a".to_string()]);
    assert!(pool.is_available_at("a", 5));
    assert_eq!(cache.get_at(&ClientGroup::Normal, "/missing", 5), None);
}

#[test]
fn all_unavailable_exhausts_and_pauses_every_candidate() {
    let mut pool = pool_of(&["a", "b", "c"], 0);
    let mut cache = CacheManager::new();
    let upstream = |id: &str| -> Option<(u16, String)> {
        match id {
            "a" => None,
            "b" => Some((503, String::new())),
            _ => Some((200, "not json".to_string())),
        }
    };
    let mut asked = Vec::new();
    let r = resolve(&mut cache, &mut pool, ClientGroup::Fast, "/x", &["a", "b", "c"], 100, &upstream, &mut asked);
    assert_eq!(r, Err(ResolveError::AllCandidatesExhausted(Some(ProviderFailure::Decode))));
    assert_eq!(asked, strings(&["a", "b", "c"]));
    for id in ["a", "b", "c"] {
        assert!(!pool.is_available_at(id, 100));
        assert!(!pool.is_available_at(id, 100 + PAUSE_DURATION_MS - 1));
        assert!(pool.is_available_at(id, 100 + PAUSE_DURATION_MS));
    }
}

#[test]
fn all_paused_gives_exhaustion_without_failure() {
    let mut pool = pool_of(&["a", "b"], 0);
    pool.pause_client_at("a", 0);
    pool.pause_client_at("b", 0);
    let mut selection = Selection::new(strings(&["a", "b"]));
    match selection.seek(&pool, 1) {
        Action::Finish(r) => assert_eq!(r, Err(ResolveError::AllCandidatesExhausted(None))),
        Action::Query(id) => panic!("asked {}", id),
    }
}

#[test]
fn unknown_candidate_is_never_asked_nor_registered() {
    let mut pool = pool_of(&["a"], 0);
    let mut selection = Selection::new(strings(&["ghost", "a"]));
    match selection.seek(&pool, 0) {
        Action::Query(id) => assert_eq!(id, "a"),
        Action::Finish(r) => panic!("finished with {:?}", r),
    }
    pool.pause_client_at("ghost", 0);
    assert!(!pool.is_available_at("ghost", u64::MAX));
}

#[test]
fn end_to_end_failover_then_cache_hit() {
    let mut pool = pool_of(&["p1", "p2"], 0);
    let mut cache = CacheManager::new();
    let upstream = |id: &str| -> Option<(u16, String)> {
        match id {
            "p1" => Some((500, "boom".to_string())),
            "p2" => Some((200, link_body("https://host/a.zip?sig=1"))),
            _ => panic!("unexpected provider {}", id),
        }
    };
    let mut asked = Vec::new();
    let r = resolve(&mut cache, &mut pool, ClientGroup::Fast, "/a.zip", &["p1", "p2"], 1_000, &upstream, &mut asked);
    assert_eq!(r, Ok("https://host/a.zip?sig=1".to_string()));
    assert_eq!(asked, strings(&["p1", "p2"]));
    assert!(!pool.is_available_at("p1", 1_000));
    assert!(pool.is_available_at("p2", 1_000));

    let silent = |id: &str| -> Option<(u16, String)> { panic!("provider {} must not be asked", id) };
    let mut asked_again = Vec::new();
    let again = resolve(&mut cache, &mut pool, ClientGroup::Fast, "/a.zip", &["p1", "p2"], 1_000 + FRESHNESS_WINDOW_MS - 1, &silent, &mut asked_again);
    assert_eq!(again, Ok("https://host/a.zip?sig=1".to_string()));
    assert!(asked_again.is_empty());
}

#[test]
fn link_outcomes_are_classified() {
    assert_eq!(
        classify_link_response(None),
        Err(ProviderError::Unavailable(ProviderFailure::Transport))
    );
    assert_eq!(classify_link_response(Some((400, "x"))), Err(ProviderError::ResourceNotFound));
    assert_eq!(
        classify_link_response(Some((429, "slow down"))),
        Err(ProviderError::Unavailable(ProviderFailure::UpstreamRejected(429)))
    );
    assert_eq!(
        classify_link_response(Some((200, "{\"id\":\"1\"}"))),
        Err(ProviderError::Unavailable(ProviderFailure::Decode))
    );
    assert_eq!(
        classify_link_response(Some((200, "{\"@microsoft.graph.downloadUrl\":7}"))),
        Err(ProviderError::Unavailable(ProviderFailure::Decode))
    );
    let body = link_body("https://dl/x");
    assert_eq!(classify_link_response(Some((204, body.as_str()))), Ok("https://dl/x".to_string()));
}

#[test]
fn pool_keeps_one_client_per_id() {
    let mut second = config("a");
    second.refresh_token = "later".to_string();
    let configs = vec![config("a"), config("b"), second];
    let pool = ResourceProvider::new_at(&configs, 7);
    assert_eq!(pool.len(), 2);
    assert_eq!(pool.client("a").unwrap().config().refresh_token, "later");
    assert!(pool.client("zzz").is_none());
    assert!(pool.is_available_at("a", 7));
    assert!(!pool.is_available_at("a", 6));
    let snapshot = pool.snapshot();
    assert_eq!(snapshot.len(), 2);
    assert_eq!(snapshot[0].id, "a");
    assert_eq!(snapshot[0].refresh_token, "later");
    assert_eq!(snapshot[1].id, "b");
}

#[test]
fn refresh_targets_cover_all_or_the_named() {
    let pool = pool_of(&["a", "b", "c"], 0);
    assert_eq!(pool.refresh_targets(&Vec::new()), strings(&["a", "b", "c"]));
    assert_eq!(pool.refresh_targets(&strings(&["c", "a", "zzz"])), strings(&["a", "c"]));
    assert_eq!(
        collect_failed(&strings(&["a", "b", "c"]), &vec![true, false, false]),
        strings(&["b", "c"])
    );
    assert!(collect_failed(&strings(&["a"]), &vec![true]).is_empty());
}

#[test]
fn refresh_cycle_stops_when_all_succeed() {
    let mut schedule = RefreshSchedule::new();
    assert!(schedule.pending().is_empty());
    assert!(schedule.after_pass(strings(&["b"])));
    assert_eq!(schedule.pending(), &strings(&["b"]));
    assert!(!schedule.after_pass(Vec::new()));
    assert_eq!(schedule.passes_done(), 2);
}

#[test]
fn refresh_cycle_gives_up_after_ten_passes() {
    let mut schedule = RefreshSchedule::new();
    let mut passes = 0;
    while schedule.after_pass(strings(&["a"])) {
        passes += 1;
        assert!(passes < 20);
    }
    assert_eq!(schedule.passes_done(), REFRESH_PASSES);
    assert_eq!(passes + 1, 10);
}

#[test]
fn tracker_pause_gates_and_latest_wins() {
    let mut m = ClientInfoManager::new();
    assert_eq!(m.add_at("p", 100), 1);
    assert_eq!(m.add_at("q", 100), 2);
    assert!(m.is_available_at("p", 100));
    assert!(!m.is_available_at("p", 99));
    assert!(!m.is_available_at("unknown", 1_000));
    m.pause_at("p", 50, 200);
    assert!(!m.is_available_at("p", 200));
    assert!(!m.is_available_at("p", 249));
    assert!(m.is_available_at("p", 250));
    m.pause_at("p", 10, 200);
    assert!(m.is_available_at("p", 210));
    m.pause_at("p", 10, u64::MAX - 5);
    assert!(!m.is_available_at("p", u64::MAX - 1));
    assert!(!m.is_available_at("p", u64::MAX));
}

#[test]
fn cache_serves_fresh_links_only() {
    let mut cache = CacheManager::new();
    assert_eq!(cache.get_at(&ClientGroup::Normal, "/a", 0), None);
    cache.set_at(&ClientGroup::Normal, "/a", "u1", 1_000);
    assert_eq!(cache.get_at(&ClientGroup::Normal, "/a", 1_000), Some("u1".to_string()));
    assert_eq!(cache.get_at(&ClientGroup::Normal, "/a", 999), Some("u1".to_string()));
    assert_eq!(
        cache.get_at(&ClientGroup::Normal, "/a", 1_000 + FRESHNESS_WINDOW_MS - 1),
        Some("u1".to_string())
    );
    assert_eq!(cache.get_at(&ClientGroup::Normal, "/a", 1_000 + FRESHNESS_WINDOW_MS), None);
    assert_eq!(cache.get_at(&ClientGroup::Fast, "/a", 1_000), None);
    cache.set_at(&ClientGroup::Normal, "/a", "u2", 9_000_000);
    assert_eq!(cache.get_at(&ClientGroup::Normal, "/a", 9_000_000), Some("u2".to_string()));
    assert_eq!(FRESHNESS_WINDOW_MS, 7_000_000);
}

#[test]
fn cache_with_wall_clock() {
    let mut cache = CacheManager::new();
    cache.set(&ClientGroup::Fast, "/w", "link");
    assert_eq!(cache.get(&ClientGroup::Fast, "/w"), Some("link".to_string()));
    let mut m = ClientInfoManager::new();
    m.add("x");
    m.pause("x", 3_600_000);
    assert!(!m.is_available("x"));
    assert!(!m.is_available("y"));
}

#[test]
fn walk_skips_paused_and_stops_on_link() {
    let mut pool = pool_of(&["a", "b", "c"], 0);
    pool.pause_client_at("a", 0);
    let answers = vec![
        Err(ProviderError::Unavailable(ProviderFailure::Transport)),
        Ok("https://host/b".to_string()),
        Err(ProviderError::ResourceNotFound),
    ];
    let mut selection = Selection::new(strings(&["a", "b", "c"]));
    let (r, asked) = selection.walk(&mut pool, &answers, 1);
    assert_eq!(r, Ok("https://host/b".to_string()));
    assert_eq!(asked, vec![1]);
    assert!(pool.is_available_at("b", 1));
}

#[test]
fn walk_not_found_is_terminal() {
    let mut pool = pool_of(&["a", "b"], 0);
    let answers = vec![Err(ProviderError::ResourceNotFound), Ok("u".to_string())];
    let mut selection = Selection::new(strings(&["a", "b"]));
    let (r, asked) = selection.walk(&mut pool, &answers, 0);
    assert_eq!(r, Err(ResolveError::ResourceNotFound));
    assert_eq!(asked, vec![0]);
    assert!(pool.is_available_at("a", 0));
}

#[test]
fn walk_exhausts_and_pauses_all() {
    let mut pool = pool_of(&["a", "b", "c"], 0);
    let answers = vec![
        Err(ProviderError::Unavailable(ProviderFailure::UpstreamRejected(500))),
        Err(ProviderError::Unavailable(ProviderFailure::Transport)),
        Err(ProviderError::Unavailable(ProviderFailure::Decode)),
    ];
    let mut selection = Selection::new(strings(&["a", "b", "c"]));
    let (r, asked) = selection.walk(&mut pool, &answers, u64::MAX);
    assert_eq!(r, Err(ResolveError::AllCandidatesExhausted(Some(ProviderFailure::Decode))));
    assert_eq!(asked, vec![0, 1, 2]);
    for id in ["a", "b", "c"] {
        assert!(!pool.is_available_at(id, u64::MAX));
    }
}

#[test]
fn send_attempts_allow_three_sends() {
    let mut attempts = SendAttempts::new();
    assert!(attempts.transport_failed());
    assert!(attempts.transport_failed());
    assert!(!attempts.transport_failed());
    assert!(!attempts.transport_failed());
}

#[test]
fn startup_schedule_has_three_rounds() {
    let mut schedule = RefreshSchedule::with_passes(STARTUP_TOKEN_ROUNDS);
    assert!(schedule.after_pass(strings(&["a"])));
    assert!(schedule.after_pass(strings(&["a"])));
    assert!(!schedule.after_pass(strings(&["a"])));
    assert_eq!(schedule.passes_done(), 3);
}

#[test]
fn exhausted_error_names_last_failure() {
    let none = ResponseError::from_resolve_error(&ResolveError::AllCandidatesExhausted(None));
    assert_eq!(none.internal_message, "所有提供者均处于暂停中");
    let decode = ResponseError::from_resolve_error(&ResolveError::AllCandidatesExhausted(Some(
        ProviderFailure::Decode,
    )));
    assert_eq!(decode.internal_message, "提供者响应反序列化失败");
    assert_eq!(decode.err_code, 9);
}

#[test]
fn tracker_never_registers_on_pause() {
    let mut m = ClientInfoManager::new();
    m.pause_at("ghost", 10, 0);
    assert!(!m.is_available_at("ghost", 0));
    assert!(!m.is_available_at("ghost", 10));
    assert!(!m.is_available_at("ghost", u64::MAX));
    assert_eq!(m.add_at("real", 0), 1);
}
