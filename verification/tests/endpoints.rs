//! Tests for the endpoint descriptors: paths, methods, auth flags, and the
//! query, form and JSON payloads each request assembles.

use monzo::endpoints::utils::u64_to_string;
use monzo::endpoints::{auth, balance, feed_items, pots, transactions, who_am_i, Method};
use monzo::Client;

fn pairs(v: &[(String, String)]) -> Vec<(&str, &str)> {
    v.iter().map(|p| (p.0.as_str(), p.1.as_str())).collect()
}

#[test]
fn decimal_rendering() {
    assert_eq!(u64_to_string(0).as_str(), "0");
    assert_eq!(u64_to_string(7).as_str(), "7");
    assert_eq!(u64_to_string(10).as_str(), "10");
    assert_eq!(u64_to_string(1089).as_str(), "1089");
    assert_eq!(u64_to_string(1234567890).as_str(), "1234567890");
    assert_eq!(u64_to_string(u64::MAX).as_str(), "18446744073709551615");
}

#[test]
fn auth_form_carries_the_refresh_grant() {
    let form = auth::Form::new("id_1", "secret_1", "refresh_1");
    assert_eq!(form.grant_type.as_str(), "refresh_token");
    assert_eq!(form.client_id.as_str(), "id_1");
    assert_eq!(form.client_secret.as_str(), "secret_1");
    assert_eq!(form.refresh_token.as_str(), "refresh_1");
}

#[test]
fn refresh_endpoint_is_an_unauthenticated_post() {
    let e = auth::Request::new("id_1", "secret_1", "refresh_1").to_endpoint();
    assert_eq!(e.method, Method::Post);
    assert_eq!(e.path.as_str(), "/oauth2/token");
    assert!(!e.auth_required);
    assert!(e.query.is_empty());
    assert!(e.json.is_empty());
    assert_eq!(
        pairs(&e.form),
        vec![
            ("grant_type", "refresh_token"),
            ("client_id", "id_1"),
            ("client_secret", "secret_1"),
            ("refresh_token", "refresh_1"),
        ]
    );
}

#[test]
fn balance_endpoint() {
    let e = balance::Get::new("acc_1").to_endpoint();
    assert_eq!(e.method, Method::Get);
    assert_eq!(e.path.as_str(), "/balance");
    assert!(e.auth_required);
    assert_eq!(pairs(&e.query), vec![("account_id", "acc_1")]);
    assert!(e.form.is_empty());
    assert!(e.json.is_empty());
}

#[test]
fn accounts_endpoint() {
    let client = Client::new(String::from("tok"));
    let e = client.accounts().to_endpoint();
    assert_eq!(e.method, Method::Get);
    assert_eq!(e.path.as_str(), "/accounts");
    assert!(e.auth_required);
    assert!(e.query.is_empty());
}

#[test]
fn who_am_i_endpoint() {
    let e = who_am_i::Request.to_endpoint();
    assert_eq!(e.method, Method::Get);
    assert_eq!(e.path.as_str(), "/ping/whoami");
    assert!(e.auth_required);
    assert!(e.query.is_empty());
}

#[test]
fn pots_list_endpoint() {
    let e = pots::List::new("acc_1").to_endpoint();
    assert_eq!(e.method, Method::Get);
    assert_eq!(e.path.as_str(), "/pots");
    assert_eq!(pairs(&e.query), vec![("current_account_id", "acc_1")]);
}

#[test]
fn pot_deposit_endpoint() {
    let r = pots::Deposit::new("pot_1", "acc_1", 1089);
    assert_eq!(r.path.as_str(), "/pots/pot_1/deposit");
    assert_eq!(r.dedupe_id.len(), 10);
    assert!(r.dedupe_id.chars().all(|c| c.is_ascii_alphanumeric()));
    let e = r.to_endpoint();
    assert_eq!(e.method, Method::Put);
    assert_eq!(e.path.as_str(), "/pots/pot_1/deposit");
    assert!(e.auth_required);
    assert_eq!(e.form.len(), 3);
    assert_eq!(
        (e.form[0].0.as_str(), e.form[0].1.as_str()),
        ("source_account_id", "acc_1")
    );
    assert_eq!((e.form[1].0.as_str(), e.form[1].1.as_str()), ("amount", "1089"));
    assert_eq!(e.form[2].0.as_str(), "dedupe_id");
    assert_eq!(e.form[2].1.as_str(), r.dedupe_id.as_str());
}

#[test]
fn pot_withdraw_endpoint() {
    let r = pots::Withdraw::new("pot_1", "acc_1", 250);
    assert_eq!(r.path.as_str(), "/pots/pot_1/withdraw");
    assert_eq!(r.dedupe_id.len(), 10);
    let e = r.to_endpoint();
    assert_eq!(e.method, Method::Put);
    assert_eq!(e.path.as_str(), "/pots/pot_1/withdraw");
    assert_eq!(
        (e.form[0].0.as_str(), e.form[0].1.as_str()),
        ("destination_account_id", "acc_1")
    );
    assert_eq!((e.form[1].0.as_str(), e.form[1].1.as_str()), ("amount", "250"));
}

#[test]
fn fresh_dedupe_id_for_each_transfer() {
    // The id is drawn anew for every request; ten alphanumeric characters.
    let a = pots::Deposit::new("pot_1", "acc_1", 1);
    let b = pots::Deposit::new("pot_1", "acc_1", 1);
    assert_eq!(a.dedupe_id.len(), 10);
    assert_eq!(b.dedupe_id.len(), 10);
    // With 62^10 possibilities a collision would point at a broken source
    // of randomness.
    assert_ne!(a.dedupe_id, b.dedupe_id);
}

#[test]
fn transactions_list_endpoint_plain() {
    let e = transactions::List::new("acc_1").to_endpoint();
    assert_eq!(e.method, Method::Get);
    assert_eq!(e.path.as_str(), "/transactions");
    assert_eq!(pairs(&e.query), vec![("account_id", "acc_1")]);
}

#[test]
fn transactions_list_endpoint_with_bounds() {
    let e = transactions::List::new("acc_1")
        .since(String::from("2019-04-28T06:36:54.318Z"))
        .before(String::from("2019-05-11T00:31:04.256Z"))
        .limit(10)
        .expand_merchant()
        .to_endpoint();
    assert_eq!(
        pairs(&e.query),
        vec![
            ("account_id", "acc_1"),
            ("limit", "10"),
            ("since", "2019-04-28T06:36:54.318Z"),
            ("before", "2019-05-11T00:31:04.256Z"),
            ("expand[]", "merchant"),
        ]
    );
}

#[test]
fn transactions_list_since_transaction() {
    let e = transactions::List::new("acc_1")
        .since_transaction(String::from("tx_0001"))
        .to_endpoint();
    assert_eq!(
        pairs(&e.query),
        vec![("account_id", "acc_1"), ("since", "tx_0001")]
    );
}

#[test]
fn transaction_get_endpoint() {
    let plain = transactions::Get::new("tx_0001").to_endpoint();
    assert_eq!(plain.method, Method::Get);
    assert_eq!(plain.path.as_str(), "/transactions/tx_0001");
    assert!(plain.query.is_empty());

    let expanded = transactions::Get::new("tx_0001").expand_merchant().to_endpoint();
    assert_eq!(pairs(&expanded.query), vec![("expand[]", "merchant")]);
}

#[test]
fn basic_feed_item_endpoint() {
    let e = feed_items::Basic::new("acc_1", "Hello", "http://img.example/cat.gif")
        .body("some body text")
        .to_endpoint();
    assert_eq!(e.method, Method::Post);
    assert_eq!(e.path.as_str(), "/feed");
    assert!(e.auth_required);
    assert!(e.form.is_empty());
    assert_eq!(
        pairs(&e.json),
        vec![
            ("account_id", "acc_1"),
            ("type", "basic"),
            ("params[title]", "Hello"),
            ("params[image_url]", "http://img.example/cat.gif"),
            ("params[body]", "some body text"),
        ]
    );
}

#[test]
fn basic_feed_item_with_all_fields() {
    let e = feed_items::Basic::new("acc_1", "t", "i")
        .url("http://example.com")
        .title("T2")
        .image_url("i2")
        .background_color("#aaffdd")
        .body_color("#bbccff")
        .title_color("#001122")
        .body("b")
        .to_endpoint();
    assert_eq!(
        pairs(&e.json),
        vec![
            ("account_id", "acc_1"),
            ("type", "basic"),
            ("url", "http://example.com"),
            ("params[title]", "T2"),
            ("params[image_url]", "i2"),
            ("params[background_color]", "#aaffdd"),
            ("params[body_color]", "#bbccff"),
            ("params[title_color]", "#001122"),
            ("params[body]", "b"),
        ]
    );
}

#[test]
fn client_builders_and_token_management() {
    let client = Client::new(String::from("tok_0"));
    assert_eq!(client.access_token().as_str(), "tok_0");
    assert!(!client.is_refreshable());

    let mut client = client.with_refresh_tokens(
        String::from("id_1"),
        String::from("secret_1"),
        String::from("refresh_1"),
    );
    assert!(client.is_refreshable());
    assert_eq!(client.access_token().as_str(), "tok_0");
    assert_eq!(client.client_id().as_str(), "id_1");
    assert_eq!(client.client_secret().as_str(), "secret_1");
    assert_eq!(client.refresh_token().as_str(), "refresh_1");

    client.set_access_token(String::from("tok_1"));
    assert_eq!(client.access_token().as_str(), "tok_1");

    let client = client.with_access_token(String::from("tok_2"));
    assert_eq!(client.access_token().as_str(), "tok_2");

    let deposit = client.deposit_into_pot("pot_1", "acc_1", 42);
    assert_eq!(deposit.path.as_str(), "/pots/pot_1/deposit");
    let withdraw = client.withdraw_from_pot("pot_1", "acc_1", 42);
    assert_eq!(withdraw.path.as_str(), "/pots/pot_1/withdraw");
    let tx = client.transaction("tx_1");
    assert_eq!(tx.path.as_str(), "/transactions/tx_1");
    let list = client.transactions("acc_1");
    assert_eq!(list.account_id.as_str(), "acc_1");
    let balance = client.balance("acc_1");
    assert_eq!(balance.account_id.as_str(), "acc_1");
    let pots = client.pots("acc_1");
    assert_eq!(pots.current_account_id.as_str(), "acc_1");
    let feed = client.basic_feed_item("acc_1", "title", "img");
    assert_eq!(feed.payload.account_id.as_str(), "acc_1");
    let who = client.who_am_i();
    assert_eq!(who.to_endpoint().path.as_str(), "/ping/whoami");
}

#[test]
fn error_messages_name_the_failure() {
    assert_eq!(
        monzo::Error::AuthExpired.message().as_str(),
        "Access token has expired!"
    );
    assert_eq!(monzo::Error::Client(404).message().as_str(), "Client error");
    assert_eq!(monzo::Error::Server(500).message().as_str(), "Server error");
}
