use todo_list::{Timestamp, TodoList, TodoListItem};

const LIST_TEXT: &str = "{\"title\":\"test list\",\"items\":\
[{\"id\":0,\"name\":\"Test Item\",\"description\":\"Test Description\",\"date_created\":\"2024-05-22T15:40:04.970459400-04:00\",\"completed\":false}],\
\"date_created\":\"2024-05-22T15:40:04.969858100-04:00\"}";

fn sample_list() -> TodoList {
    let item = TodoListItem::from_parts(
        0,
        String::from("Test Item"),
        String::from("Test Description"),
        Timestamp::from_text(String::from("2024-05-22T15:40:04.970459400-04:00")).unwrap(),
        false,
    );
    TodoList::from_parts(
        String::from("test list"),
        vec![item],
        Timestamp::from_text(String::from("2024-05-22T15:40:04.969858100-04:00")).unwrap(),
    )
}

#[test]
fn saves_json_to_file() {
    let mut list = TodoList::new(String::from("test list"));
    list.add(String::from("Test Item"), String::from("Test Description"));
    let contents = list.to_json();
    assert!(contents.len() > 0);
}

#[test]
fn list_json_is_the_stored_document() {
    assert_eq!(sample_list().to_json(), LIST_TEXT);
}

#[test]
fn empty_list_json() {
    let list = TodoList::from_parts(String::from("t"), vec![], Timestamp::from_text(String::from("2024-01-01T00:00:00Z")).unwrap());
    assert_eq!(list.to_json(), "{\"title\":\"t\",\"items\":[],\"date_created\":\"2024-01-01T00:00:00Z\"}");
}

#[test]
fn item_json_escapes_text_and_writes_numbers() {
    let item = TodoListItem::from_parts(
        1234,
        String::from("say \"hi\""),
        String::from("a\\b\nc"),
        Timestamp::from_text(String::from("2024-01-01T00:00:00Z")).unwrap(),
        true,
    );
    assert_eq!(
        item.to_json(),
        "{\"id\":1234,\"name\":\"say \\\"hi\\\"\",\"description\":\"a\\\\b\\nc\",\"date_created\":\"2024-01-01T00:00:00Z\",\"completed\":true}"
    );
}

#[test]
fn items_are_separated_by_commas() {
    let mut list = sample_list();
    list.items.push(TodoListItem::from_parts(
        5,
        String::from("b"),
        String::from(""),
        Timestamp::from_text(String::from("2024-01-01T00:00:00Z")).unwrap(),
        false,
    ));
    let text = list.to_json();
    assert!(text.contains("\"completed\":false},{\"id\":5,\"name\":\"b\",\"description\":\"\""));
}

#[test]
fn json_reads_back_with_the_same_fields() {
    let mut list = TodoList::new(String::from("round \"trip\""));
    list.add(String::from("one"), String::from("first"));
    list.add(String::from("two"), String::from("second"));
    list.items[1].completed = true;
    let value: serde_json::Value = serde_json::from_str(&list.to_json()).unwrap();
    assert_eq!(value["title"], "round \"trip\"");
    assert_eq!(value["date_created"], list.date_created().as_str());
    let items = value["items"].as_array().unwrap();
    assert_eq!(items.len(), 2);
    for (read, kept) in items.iter().zip(list.items.iter()) {
        assert_eq!(read["id"].as_u64().unwrap() as usize, kept.id());
        assert_eq!(read["name"], kept.name.as_str());
        assert_eq!(read["description"], kept.description.as_str());
        assert_eq!(read["completed"], kept.completed);
        assert_eq!(read["date_created"], kept.date_created().as_str());
    }
}

#[test]
fn now_is_rfc3339() {
    let t = Timestamp::now();
    assert!(chrono::DateTime::parse_from_rfc3339(t.as_str()).is_ok());
}

#[test]
fn from_text_checks_the_outline() {
    assert!(Timestamp::from_text(String::from("yesterday")).is_none());
    assert!(Timestamp::from_text(String::from("2024-05-22T15:40:04.969858100+0400")).is_none());
    assert!(Timestamp::from_text(String::from("2024-05-22T15:40:04+02:00")).is_some());
    assert_eq!(Timestamp::from_text(String::from("2024-05-22T15:40:04Z")).unwrap().as_str(), "2024-05-22T15:40:04Z");
}

#[test]
fn control_characters_are_escaped() {
    let list = TodoList::from_parts(
        String::from("a\u{1}b\tc/\u{7f}é"),
        vec![],
        Timestamp::from_text(String::from("2024-01-01T00:00:00Z")).unwrap(),
    );
    assert_eq!(
        list.to_json(),
        "{\"title\":\"a\\u0001b\\tc/\u{7f}é\",\"items\":[],\"date_created\":\"2024-01-01T00:00:00Z\"}"
    );
}

#[test]
fn ids_are_written_in_decimal() {
    let stamp = || Timestamp::from_text(String::from("2024-01-01T00:00:00Z")).unwrap();
    let zero = TodoListItem::from_parts(0, String::new(), String::new(), stamp(), false);
    assert!(zero.to_json().starts_with("{\"id\":0,"));
    let big = TodoListItem::from_parts(usize::MAX, String::new(), String::new(), stamp(), false);
    assert!(big.to_json().starts_with(&format!("{{\"id\":{},", usize::MAX)));
    let ten = TodoListItem::from_parts(10, String::new(), String::new(), stamp(), false);
    assert!(ten.to_json().starts_with("{\"id\":10,"));
}
