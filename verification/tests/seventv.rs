use emote_resolver::failure::Failure;
use emote_resolver::seventv::{
    emote_download_file_name, emote_download_url, emote_set_url, most_popular_emote,
    popular_emote_query, SevenEmotesData, SevenEmotesDataWrapper, SevenUserData, SevenUserEmote,
    SevenUserEmoteSet, SEARCH_URL,
};

fn emote(id: &str, name: &str, animated: bool) -> SevenUserEmote {
    SevenUserEmote { id: id.to_owned(), name: name.to_owned(), animated }
}

#[test]
fn emote_set_url_names_the_broadcaster() {
    assert_eq!(emote_set_url("22484632"), "https://7tv.io/v3/users/twitch/22484632");
    assert_eq!(emote_set_url(""), "https://7tv.io/v3/users/twitch/");
}

#[test]
fn download_url_and_file_name() {
    assert_eq!(emote_download_url("abc"), "https://cdn.7tv.app/emote/abc/4x.webp");
    assert_eq!(emote_download_file_name("abc"), "abc.webp");
}

#[test]
fn search_address() {
    assert_eq!(SEARCH_URL, "https://7tv.io/v3/gql");
}

#[test]
fn search_body_holds_the_keyword() {
    let emote_keyword = "LUL";
    let expected = format!(
        r#"{{
            "query": "query SearchEmotes($query: String!) {{ emotes(query: $query filter: {{ case_sensitive: true, exact_match: true }} sort: {{ value: \"popularity\", order: DESCENDING }}) {{ items {{ id name animated }} }} }}",
            "variables": {{
                "query": "{emote_keyword}"
            }}
        }}"#
    );
    assert_eq!(popular_emote_query(emote_keyword), expected);
}

#[test]
fn most_popular_is_the_first_item() {
    let items = vec![emote("1", "LUL", false), emote("2", "LUL", true)];
    let best = most_popular_emote(&items).unwrap();
    assert_eq!(best.id, "1");
    assert_eq!(best.name, "LUL");
    assert!(!best.animated);
}

#[test]
fn most_popular_of_nothing_is_not_found() {
    match most_popular_emote(&Vec::new()) {
        Err(failure @ Failure::NotFound) => assert_eq!(failure.message(), "Emote not found"),
        other => panic!("unexpected {:?}", other),
    }
}

#[test]
fn search_answer_hands_its_items_out() {
    let data = SevenEmotesData::new(vec![emote("1", "a", true)]);
    let wrapper = SevenEmotesDataWrapper::new(data);
    let items = wrapper.into_emotes().into_items();
    assert_eq!(items.len(), 1);
    assert_eq!(items[0].id, "1");
}

#[test]
fn user_data_holds_an_emote_set() {
    let data = SevenUserData {
        id: "u".to_owned(),
        emote_set: SevenUserEmoteSet {
            id: "s".to_owned(),
            name: "set".to_owned(),
            emotes: vec![emote("1", "a", true)],
        },
    };
    assert_eq!(data.emote_set.emotes[0].clone().name, "a");
}
