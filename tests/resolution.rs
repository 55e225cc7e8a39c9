use koditool::json::Json;
use koditool::resolver::{
    choose_with_seed, collect_episode_ids, find_show_id, select_random_show_name, Progress,
    ResolveError, ResolveStep, Resolution,
};
use koditool::rpc::RpcError;

fn obj(entries: Vec<(&str, Json)>) -> Json {
    Json::Object(entries.into_iter().map(|(k, v)| (k.to_string(), v)).collect())
}

fn text(s: &str) -> Json {
    Json::Str(s.to_string())
}

fn shows_reply(shows: Vec<(u64, &str)>) -> Json {
    let items = shows
        .into_iter()
        .map(|(id, title)| obj(vec![("tvshowid", Json::UInt(id)), ("title", text(title))]))
        .collect();
    obj(vec![("jsonrpc", text("2.0")), ("id", Json::UInt(1)), ("result", obj(vec![("tvshows", Json::Array(items))]))])
}

fn episodes_reply(ids: Vec<u64>) -> Json {
    let items = ids.into_iter().map(|id| obj(vec![("episodeid", Json::UInt(id))])).collect();
    obj(vec![("result", obj(vec![("episodes", Json::Array(items))]))])
}

fn details_reply(file: &str) -> Json {
    obj(vec![("result", obj(vec![("episodedetails", obj(vec![("file", text(file))]))]))])
}

#[test]
fn test_random_episode_selection() {
    let episode_ids: Vec<u64> = vec![101, 102, 103, 104];
    let random_episode_id = choose_with_seed(&episode_ids, [0u8; 32]).unwrap();
    assert_eq!(*random_episode_id, 102);
}

#[test]
fn same_seed_same_episode() {
    let ids: Vec<u64> = vec![201, 202, 203];
    let seed = [7u8; 32];
    let first = *choose_with_seed(&ids, seed).unwrap();
    for _ in 0..10 {
        assert_eq!(*choose_with_seed(&ids, seed).unwrap(), first);
    }
    assert!(ids.contains(&first));
    let through_resolution = |seed: [u8; 32]| {
        match (Resolution::AwaitEpisodes { show_id: 1 }).advance(Ok(episodes_reply(vec![201, 202, 203])), seed) {
            Progress::Next(Resolution::AwaitDetails { episode_id }) => episode_id,
            other => panic!("unexpected {:?}", other),
        }
    };
    assert_eq!(through_resolution(seed), first);
    assert_eq!(through_resolution(seed), first);
}

#[test]
fn empty_episode_list_has_no_choice() {
    let ids: Vec<u64> = vec![];
    assert!(choose_with_seed(&ids, [3u8; 32]).is_none());
    let shows: Vec<String> = vec![];
    assert!(select_random_show_name(&shows).is_none());
    let one = vec!["Friends".to_string()];
    assert_eq!(select_random_show_name(&one).unwrap(), "Friends");
}

#[test]
fn test_select_random_episode_by_title() {
    let seed = [0u8; 32];
    let start = Resolution::start("Friends".to_string());
    let step = start.advance(Ok(shows_reply(vec![(1, "Friends"), (2, "Breaking Bad")])), seed);
    let step = match step {
        Progress::Next(r @ Resolution::AwaitEpisodes { show_id: 1 }) => r,
        other => panic!("unexpected {:?}", other),
    };
    let step = match step.advance(Ok(episodes_reply(vec![101, 102])), seed) {
        Progress::Next(r @ Resolution::AwaitDetails { .. }) => r,
        other => panic!("unexpected {:?}", other),
    };
    let chosen = match step {
        Resolution::AwaitDetails { episode_id } => episode_id,
        _ => unreachable!(),
    };
    assert!(chosen == 101 || chosen == 102);
    match step.advance(Ok(details_reply("/path/to/episode.mp4")), seed) {
        Progress::Done(result) => {
            assert_eq!(result.episode_id, chosen);
            assert_eq!(result.episode_file_path, "/path/to/episode.mp4");
        }
        other => panic!("unexpected {:?}", other),
    }
}

#[test]
fn test_tv_show_not_found() {
    let step = Resolution::start("Game of Thrones".to_string())
        .advance(Ok(shows_reply(vec![(1, "Friends")])), [0u8; 32]);
    assert!(matches!(step, Progress::Failed(ResolveError::ShowNotFound(ref t)) if t == "Game of Thrones"));
}

#[test]
fn title_match_is_exact_and_first_wins() {
    let reply = shows_reply(vec![(4, "friends"), (5, "Friends"), (6, "Friends")]);
    assert_eq!(find_show_id(&reply, &"Friends".to_string()).unwrap(), 5);
    let no_id = obj(vec![("result", obj(vec![("tvshows", Json::Array(vec![obj(vec![("title", text("Friends"))])]))]))]);
    assert!(matches!(find_show_id(&no_id, &"Friends".to_string()), Err(ResolveError::MissingShowId)));
    let no_list = obj(vec![("result", obj(vec![]))]);
    assert!(matches!(find_show_id(&no_list, &"Friends".to_string()), Err(ResolveError::ShowNotFound(_))));
}

#[test]
fn test_no_episodes_available() {
    let step = Resolution::AwaitEpisodes { show_id: 1 }.advance(Ok(episodes_reply(vec![])), [0u8; 32]);
    assert!(matches!(step, Progress::Failed(ResolveError::NoEpisodesAvailable)));
    let missing = obj(vec![("result", obj(vec![("limits", obj(vec![]))]))]);
    assert!(matches!(collect_episode_ids(&missing), Err(ResolveError::NoEpisodesAvailable)));
}

#[test]
fn episode_without_id_is_reported() {
    let reply = obj(vec![("result", obj(vec![("episodes", Json::Array(vec![
        obj(vec![("episodeid", Json::UInt(1))]),
        obj(vec![("title", text("Pilot"))]),
    ]))]))]);
    assert!(matches!(collect_episode_ids(&reply), Err(ResolveError::MissingEpisodeId)));
    assert_eq!(collect_episode_ids(&episodes_reply(vec![9, 8])).unwrap(), vec![9, 8]);
}

#[test]
fn details_without_file_are_incomplete() {
    let reply = obj(vec![("result", obj(vec![("episodedetails", obj(vec![]))]))]);
    let step = Resolution::AwaitDetails { episode_id: 3 }.advance(Ok(reply), [0u8; 32]);
    assert!(matches!(step, Progress::Failed(ResolveError::EpisodeDetailsIncomplete)));
}

#[test]
fn transport_failures_name_their_step() {
    let step = Resolution::AwaitEpisodes { show_id: 2 }.advance(Err(RpcError::ProtocolError(502)), [0u8; 32]);
    assert!(matches!(
        step,
        Progress::Failed(ResolveError::Rpc(ResolveStep::ListEpisodes, RpcError::ProtocolError(502)))
    ));
    let step = Resolution::start("X".to_string()).advance_fresh(Err(RpcError::TransportError));
    assert!(matches!(
        step,
        Progress::Failed(ResolveError::Rpc(ResolveStep::ListShows, RpcError::TransportError))
    ));
}

#[test]
fn requests_follow_the_steps() {
    let method = |j: &Json| match j.get(&"method".to_string()) {
        Some(Json::Str(m)) => m.clone(),
        _ => String::new(),
    };
    assert_eq!(method(&Resolution::start("A".to_string()).request()), "VideoLibrary.GetTVShows");
    let r = Resolution::AwaitEpisodes { show_id: 42 }.request();
    assert_eq!(method(&r), "VideoLibrary.GetEpisodes");
    let params = r.get(&"params".to_string()).unwrap();
    assert!(matches!(params.get(&"tvshowid".to_string()), Some(Json::UInt(42))));
    let r = Resolution::AwaitDetails { episode_id: 7 }.request();
    assert_eq!(method(&r), "VideoLibrary.GetEpisodeDetails");
    let params = r.get(&"params".to_string()).unwrap();
    assert!(matches!(params.get(&"episodeid".to_string()), Some(Json::UInt(7))));
}
