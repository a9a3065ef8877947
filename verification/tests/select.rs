use wallers::select::{select, LOCAL_WEIGHT};

fn owned(items: &[&str]) -> Vec<String> {
    items.iter().map(|s| s.to_string()).collect()
}

#[test]
fn selector_with_empty_cache_and_one_url() {
    let selection = select(&Vec::new(), &owned(&["http://a"]));
    assert_eq!(selection.local_choice, None);
    assert_eq!(selection.remote_choice, Some("http://a".to_string()));
}

#[test]
fn selector_with_nothing_to_choose_from() {
    let selection = select(&Vec::new(), &Vec::new());
    assert_eq!(selection.local_choice, None);
    assert_eq!(selection.remote_choice, None);
}

#[test]
fn selector_with_one_entry_and_no_url() {
    let selection = select(&owned(&["deadbeef"]), &Vec::new());
    assert_eq!(selection.local_choice, Some("deadbeef".to_string()));
    assert_eq!(selection.remote_choice, None);
}

#[test]
fn selector_picks_from_its_inputs() {
    let cache = owned(&["k1", "k2", "k3"]);
    let urls = owned(&["http://a", "http://b", "http://c", "http://d"]);
    let mut run = 0;
    while run < 200 {
        let selection = select(&cache, &urls);
        assert!(cache.contains(&selection.local_choice.unwrap()));
        assert!(urls.contains(&selection.remote_choice.unwrap()));
        run += 1;
    }
}

#[test]
fn selector_reaches_every_candidate() {
    let cache = owned(&["k1", "k2", "k3"]);
    let urls = owned(&["http://a", "http://b"]);
    let mut seen_local = [false; 3];
    let mut seen_remote = [false; 2];
    let mut run = 0;
    while run < 1000 {
        let selection = select(&cache, &urls);
        let local = selection.local_choice.unwrap();
        let remote = selection.remote_choice.unwrap();
        seen_local[cache.iter().position(|k| *k == local).unwrap()] = true;
        seen_remote[urls.iter().position(|u| *u == remote).unwrap()] = true;
        run += 1;
    }
    assert_eq!(seen_local, [true; 3]);
    assert_eq!(seen_remote, [true; 2]);
}

#[test]
fn selector_prefers_local_about_one_time_in_three() {
    assert_eq!(LOCAL_WEIGHT, 3);
    let cache = owned(&["k"]);
    let urls = owned(&["http://a"]);
    let mut preferred = 0;
    let mut run = 0;
    while run < 6000 {
        if select(&cache, &urls).prefer_local {
            preferred += 1;
        }
        run += 1;
    }
    assert!(preferred > 1500 && preferred < 2500, "preferred {} times", preferred);
}
