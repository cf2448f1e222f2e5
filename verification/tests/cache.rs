use strumbot::cache::{CacheAnswer, GameCache, GAME_CACHE_SIZE};
use strumbot::client::{GameStep, TwitchClient};
use strumbot::error::RequestError;
use strumbot::model::Game;
use strumbot::oauth::{Identity, QueryParams};

fn game(id: usize) -> Game {
    Game { id: id.to_string(), name: format!("Game {}", id) }
}

fn is_hit(cache: &mut GameCache, id: usize) -> bool {
    match cache.lookup(&id.to_string()) {
        CacheAnswer::Hit(g) => {
            assert_eq!(g.id, id.to_string());
            assert_eq!(g.name, format!("Game {}", id));
            true
        }
        CacheAnswer::Miss => false,
        CacheAnswer::Sentinel(_) => panic!("the id is not empty"),
    }
}

#[test]
fn one_more_than_the_limit_evicts_the_first() {
    let mut cache = GameCache::new();
    for id in 0..GAME_CACHE_SIZE + 1 {
        cache.store(id.to_string(), &game(id));
    }
    assert_eq!(cache.len(), 100);
    assert!(!is_hit(&mut cache, 0));
    for id in 1..GAME_CACHE_SIZE + 1 {
        assert!(is_hit(&mut cache, id));
    }
}

#[test]
fn a_lookup_makes_the_entry_the_most_recent() {
    let mut cache = GameCache::new();
    for id in 0..GAME_CACHE_SIZE {
        cache.store(id.to_string(), &game(id));
    }
    assert!(is_hit(&mut cache, 0));
    cache.store("new".to_string(), &Game { id: "new".to_string(), name: "New".to_string() });
    assert_eq!(cache.len(), 100);
    assert!(is_hit(&mut cache, 0));
    assert!(!is_hit(&mut cache, 1));
    assert!(is_hit(&mut cache, 2));
}

#[test]
fn storing_a_held_key_replaces_its_value() {
    let mut cache = GameCache::new();
    cache.store("a".to_string(), &Game { id: "a".to_string(), name: "old".to_string() });
    cache.store("b".to_string(), &Game { id: "b".to_string(), name: "B".to_string() });
    cache.store("a".to_string(), &Game { id: "a".to_string(), name: "new".to_string() });
    assert_eq!(cache.len(), 2);
    match cache.lookup("a") {
        CacheAnswer::Hit(g) => assert_eq!(g.name, "new"),
        _ => panic!("the key is held"),
    }
}

#[test]
fn the_empty_id_never_touches_the_cache() {
    let mut cache = GameCache::new();
    cache.store(String::new(), &Game { id: String::new(), name: "cached".to_string() });
    assert_eq!(cache.len(), 0);
    match cache.lookup("") {
        CacheAnswer::Sentinel(g) => {
            assert_eq!(g.id, "");
            assert_eq!(g.name, "No Category");
        }
        _ => panic!("the empty id is the sentinel"),
    }
    for id in 0..GAME_CACHE_SIZE {
        cache.store(id.to_string(), &game(id));
    }
    cache.store(String::new(), &game(0));
    assert_eq!(cache.len(), 100);
    assert!(is_hit(&mut cache, 0));
}

#[test]
fn an_answer_for_the_empty_id_is_not_cached() {
    let mut client = client();
    let got = client.cache_game("", vec![Game { id: String::new(), name: "Odd".to_string() }]);
    assert_eq!(got.unwrap().name, "Odd");
    assert_eq!(client.games_cache.len(), 0);
}

fn client() -> TwitchClient {
    TwitchClient::new(Identity::granted("tok".to_string(), 3600, "bearer".to_string(), 100))
}

#[test]
fn category_is_asked_for_once() {
    let mut client = client();
    match client.get_game_by_id("") {
        GameStep::Found(g) => assert!(g.is_empty()),
        GameStep::Ask(_) => panic!("the sentinel is never asked for"),
    }
    assert_eq!(client.games_cache.len(), 0);
    match client.get_game_by_id("512710") {
        GameStep::Ask(request) => {
            assert_eq!(request.endpoint, "games");
            match request.params {
                QueryParams::With(items) => {
                    assert_eq!(items, vec![("id".to_string(), "512710".to_string())])
                }
                QueryParams::Empty => panic!("the id is asked for"),
            }
        }
        GameStep::Found(_) => panic!("nothing is cached yet"),
    }
    let got = client
        .cache_game(
            "512710",
            vec![
                Game { id: "1".to_string(), name: "First".to_string() },
                Game { id: "512710".to_string(), name: "Just Chatting".to_string() },
            ],
        )
        .unwrap();
    assert_eq!(got.name, "Just Chatting");
    assert_eq!(client.games_cache.len(), 1);
    match client.get_game_by_id("512710") {
        GameStep::Found(g) => assert_eq!(g.name, "Just Chatting"),
        GameStep::Ask(_) => panic!("the category is cached"),
    }
}

#[test]
fn empty_answer_is_not_found_and_not_cached() {
    let mut client = client();
    let out = client.cache_game("9", vec![]);
    assert_eq!(out.unwrap_err(), RequestError::NotFound("Game".to_string(), "9".to_string()));
    assert_eq!(client.games_cache.len(), 0);
}

#[test]
fn failed_grant_keeps_the_token() {
    let mut client = client();
    assert!(!client.refresh_due(100));
    assert!(client.refresh_due(3200));
    assert_eq!(client.refresh_auth(Err(RequestError::Http(403))), Err(RequestError::Http(403)));
    assert_eq!(client.identity().access_token, "tok");
    let fresh = Identity::granted("new".to_string(), 3600, "bearer".to_string(), 3200);
    assert_eq!(client.refresh_auth(Ok(fresh)), Ok(()));
    assert_eq!(client.identity().access_token, "new");
    assert_eq!(client.identity().expires_at, 6800);
}
