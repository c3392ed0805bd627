use api_gateway::console::{
    email_prompt, listing_heading, listing_lines, name_prompt, parse_user_id, saved_message, trim_end,
    user_lookup_message, LISTING_LIMIT,
};
use api_gateway::models::User;

fn user(id: u32, name: &str, email: &str) -> User {
    User {
        id,
        name: String::from(name),
        email: String::from(email),
        created_at: chrono::NaiveDateTime::default(),
        updated_at: None,
    }
}

#[test]
fn user_ids_parse_as_unsigned_numbers() {
    for text in ["0", "7", "+7", "007", "4294967295", "", "+", "-1", "-0", "4294967296", "12a", " 1", "99999999999999999999"] {
        assert_eq!(parse_user_id(text), text.parse::<u32>().ok(), "{:?}", text);
    }
}

#[test]
fn lookup_messages() {
    let u = user(3, "ada", "ada@example.com");
    assert_eq!(user_lookup_message(3, Ok(Some(&u))), "User with id: 3 has a name: ada");
    assert_eq!(user_lookup_message(9, Ok(None)), "Unable to find user 9");
    assert_eq!(user_lookup_message(9, Err(())), "An error occurred while fetching user 9");
}

#[test]
fn listing_text() {
    let users = vec![user(1, "a", "a@x"), user(20, "b", "b@x")];
    assert_eq!(listing_heading(users.len()), "Displaying 2 users");
    assert_eq!(listing_lines(&users), vec![String::from("id: 1, name: a, email: a@x"), String::from("id: 20, name: b, email: b@x")]);
    assert_eq!(LISTING_LIMIT, 5);
}

#[test]
fn answers_lose_trailing_whitespace_only() {
    for text in ["name\n", "name \t\r\n", "  name", "", "\u{3000}a\u{2028}", "a\u{a0}", "x\u{200b}"] {
        assert_eq!(trim_end(text), text.trim_end(), "{:?}", text);
    }
}

#[test]
fn registration_tool_text() {
    assert_eq!(name_prompt(), "What would you like your name to be?");
    assert_eq!(email_prompt(), "What would you like your email to be?");
    assert_eq!(saved_message("ada", 12), "\nSaved user 'ada' with id:12");
}

#[test]
fn printed_ids_read_back() {
    for id in [0u32, 9, 10, 123, u32::MAX] {
        let text = api_gateway::testing::decimal_string(id as u128);
        assert_eq!(parse_user_id(&text), Some(id));
    }
}
