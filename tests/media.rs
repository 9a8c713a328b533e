use lazytool::media::episode_from_captures;
use lazytool::{Episode, PatternError, RegexParser};

#[test]
fn test_match_pattern1() {
    let path = "/Volumes/Getea/影片/电视剧/医馆笑传/医馆笑传S01.37集.1080P/01.mp4";
    let item = Episode::from_path(path).unwrap();
    assert!(item.is_some());
    if let Some(ep) = item {
        assert_eq!(ep.title, Some("医馆笑传".to_string()));
        assert_eq!(ep.season, Some(1));
        assert_eq!(ep.episode, Some(1));
    }
}

#[test]
fn test_match_pattern2() {
    let path = "/Volumes/还珠格格S01.国语中字.无台标.1080P/还珠格格S01E02.mp4";
    let item = Episode::from_path(path).unwrap();
    println!("{item:?}");
    assert!(item.is_some());
    if let Some(ep) = item {
        assert_eq!(ep.title, Some("还珠格格".to_string()));
        assert_eq!(ep.season, Some(1));
        assert_eq!(ep.episode, Some(2));
    }
}

#[test]
fn test_match_pattern3() {
    let path = "/Volumes/ZhiTai/影片/电视剧/爱情公寓/S2 (2011) 4K/02.mp4";
    let item = Episode::from_path(path).unwrap();
    assert!(item.is_some());
    if let Some(ep) = item {
        assert_eq!(ep.title, Some("爱情公寓".to_string()));
        assert_eq!(ep.season, Some(2));
        assert_eq!(ep.episode, Some(2));
    }
}

#[test]
fn test_match_pattern4() {
    let path = "/Volumes/ZhiTai/影片/电视剧/龙门镖局/龙门镖局 (2013) 4K/龙门镖局.Longmen.Express.2013.E02.4K.2160p.HEVC.AAC-DHTCLUB.mp4";
    let item = Episode::from_path(path).unwrap();
    assert!(item.is_some());
    if let Some(ep) = item {
        assert_eq!(ep.title, Some("龙门镖局".to_string()));
        assert_eq!(ep.season, Some(1));
        assert_eq!(ep.episode, Some(2));
    }
}

#[test]
fn test_match_pattern5() {
    let path = "/Volumes/Getea/影/影/渤/疯狂的赛车.2009.01201.mp4";
    let item = Episode::from_path(path).unwrap();
    assert!(item.is_some());
    if let Some(ep) = item {
        assert_eq!(ep.title, Some("疯狂的赛车".to_string()));
        assert_eq!(ep.season, Some(2009));
        assert_eq!(ep.episode, Some(1201));
    }
}

#[test]
fn test_match_pattern6() {
    let path = "/Volumes/ZhiTai/影片/电视剧/约会专家.1080P/约会专家第04集.mp4";
    let item = Episode::from_path(path).unwrap();
    assert!(item.is_some());
    if let Some(ep) = item {
        assert_eq!(ep.title, Some("约会专家".to_string()));
        assert_eq!(ep.season, Some(1));
        assert_eq!(ep.episode, Some(4));
    }
}

fn expect(path: &str, title: &str, season: Option<u16>, episode: Option<u16>) {
    let ep = Episode::from_path(path).unwrap().expect("a record");
    assert_eq!(ep.title, Some(title.to_string()));
    assert_eq!(ep.season, season);
    assert_eq!(ep.episode, episode);
}

#[test]
fn season_folder_example() {
    expect("/a/b/Show/ShowS01.37集.1080P/01.mkv", "Show", Some(1), Some(1));
}

#[test]
fn single_file_example() {
    expect("/a/ShowS01E02.mp4", "Show", Some(1), Some(2));
}

#[test]
fn dotted_film_example() {
    expect("/a/Show.2009.01201.mp4", "Show", Some(2009), Some(1201));
}

#[test]
fn second_season_folder() {
    expect("/Volumes/医馆笑传S02.37集.1080P/03.mp4", "医馆笑传", Some(2), Some(3));
}

#[test]
fn earlier_convention_wins() {
    // The single-file convention gives season 3; the release-group one,
    // tried later, would give season 1.
    expect("/x/Show (2013) 4K/ShowS03E02.mp4", "Show", Some(3), Some(2));
}

#[test]
fn reordered_matchers_change_the_winner() {
    let path = "/x/Show (2013) 4K/ShowS03E02.mp4";
    let release = RegexParser::new(r"/([^/]+)/([^/]+) \(.*\) .*E(\d{2})", vec![2, 0, 3]).unwrap();
    let single = RegexParser::new(r"^(.*?)/([^/]+)S(\d{2})E(\d{2})\.(\w+)$", vec![2, 3, 4]).unwrap();
    let ep = Episode::from_path_with_regex(path, vec![release, single]).unwrap();
    assert_eq!(ep.title, Some("Show".to_string()));
    assert_eq!(ep.season, Some(1));
    assert_eq!(ep.episode, Some(2));
}

#[test]
fn numbered_episode_season_is_one() {
    expect("/v/ShowS05.1080P/Show第04集.mp4", "ShowS05", Some(1), Some(4));
}

#[test]
fn release_group_season_is_one() {
    expect("/tv/Show/Show (2019) 4K/Show.S07.2019.E11.2160p.mp4", "Show", Some(1), Some(11));
}

#[test]
fn no_convention_gives_none() {
    assert!(Episode::from_path("/a/movie.mp4").unwrap().is_none());
    assert!(Episode::from_path("").unwrap().is_none());
}

#[test]
fn extraction_is_repeatable() {
    let path = "/a/b/Show/ShowS01.37集.1080P/01.mkv";
    let a = Episode::from_path(path).unwrap().unwrap();
    let b = Episode::from_path(path).unwrap().unwrap();
    assert_eq!(a.title, b.title);
    assert_eq!(a.season, b.season);
    assert_eq!(a.episode, b.episode);
}

#[test]
fn empty_matcher_list_gives_none() {
    let parsers: Vec<RegexParser> = Vec::new();
    assert!(Episode::from_path_with_regex("/a/ShowS01E02.mp4", parsers).is_none());
}

#[test]
fn invalid_pattern_is_refused() {
    let r = RegexParser::new("foo(bar", vec![1, 1, 1]);
    assert!(matches!(r, Err(PatternError::InvalidPattern)));
}

fn groups(texts: &[Option<&str>]) -> Vec<Option<String>> {
    texts.iter().map(|t| t.map(|s| s.to_string())).collect()
}

#[test]
fn leading_zeros_are_dropped() {
    let g = groups(&[Some("/a/Show.2009.01201.mp4"), Some("/a"), Some("Show"), Some("2009"), Some("01201")]);
    let ep = episode_from_captures(&g, &vec![2, 3, 4]);
    assert_eq!(ep.title, Some("Show".to_string()));
    assert_eq!(ep.season, Some(2009));
    assert_eq!(ep.episode, Some(1201));
}

#[test]
fn unreadable_episode_leaves_other_fields() {
    let g = groups(&[Some("whole"), Some("Show"), Some("02"), Some("ab")]);
    let ep = episode_from_captures(&g, &vec![1, 2, 3]);
    assert_eq!(ep.title, Some("Show".to_string()));
    assert_eq!(ep.season, Some(2));
    assert_eq!(ep.episode, None);
}

#[test]
fn unreadable_season_leaves_other_fields() {
    let g = groups(&[Some("whole"), Some("Show"), Some("x1"), Some("07")]);
    let ep = episode_from_captures(&g, &vec![1, 2, 3]);
    assert_eq!(ep.title, Some("Show".to_string()));
    assert_eq!(ep.season, None);
    assert_eq!(ep.episode, Some(7));
}

#[test]
fn season_group_zero_means_season_one() {
    let g = groups(&[Some("whole"), Some("Show"), Some("09")]);
    let ep = episode_from_captures(&g, &vec![1, 0, 2]);
    assert_eq!(ep.season, Some(1));
    assert_eq!(ep.episode, Some(9));
}

#[test]
fn missing_groups_are_absent() {
    let g = groups(&[Some("whole"), None]);
    let ep = episode_from_captures(&g, &vec![1, 5, 7]);
    assert_eq!(ep.title, None);
    assert_eq!(ep.season, None);
    assert_eq!(ep.episode, None);
}

#[test]
fn large_episode_number_is_absent() {
    let g = groups(&[Some("whole"), Some("Show"), Some("70000")]);
    let ep = episode_from_captures(&g, &vec![1, 0, 2]);
    assert_eq!(ep.episode, None);
}
