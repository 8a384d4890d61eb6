use robloxapi::text::{bool_to_text, u64_to_string};
use robloxapi::urls;

#[test]
fn decimal_rendering() {
    assert_eq!(u64_to_string(0), "0");
    assert_eq!(u64_to_string(7), "7");
    assert_eq!(u64_to_string(10), "10");
    assert_eq!(u64_to_string(100), "100");
    assert_eq!(u64_to_string(7415484311), "7415484311");
    assert_eq!(u64_to_string(u64::MAX), "18446744073709551615");
}

#[test]
fn boolean_rendering() {
    assert_eq!(bool_to_text(true), "true");
    assert_eq!(bool_to_text(false), "false");
}

#[test]
fn fixed_endpoints() {
    assert_eq!(urls::user_info_url(), "https://www.roblox.com/mobileapi/userinfo");
    assert_eq!(urls::logout_url(), "https://auth.roblox.com/v2/logout");
    assert_eq!(urls::usernames_lookup_url(), "https://users.roblox.com/v1/usernames/users");
}

#[test]
fn user_endpoints() {
    assert_eq!(urls::base_user_url(242872495), "https://api.roblox.com/users/242872495");
    assert_eq!(urls::user_detail_url(242872495), "https://users.roblox.com/v1/users/242872495");
    assert_eq!(
        urls::friends_url(242872495, 3),
        "https://api.roblox.com/users/242872495/friends?page=3"
    );
    assert_eq!(
        urls::has_asset_url(242872495, 1029025),
        "https://api.roblox.com/ownership/hasasset?userId=242872495&assetId=1029025"
    );
}

#[test]
fn game_endpoints() {
    assert_eq!(
        urls::place_details_url(7415484311),
        "https://games.roblox.com/v1/games/multiget-place-details?placeIds=7415484311"
    );
    assert_eq!(
        urls::games_by_universe_url(123456),
        "https://games.roblox.com/v1/games?universeIds=123456"
    );
    assert_eq!(
        urls::servers_url(7415484311),
        "https://games.roblox.com/v1/games/7415484311/servers/Public?limit=100"
    );
    assert_eq!(
        urls::dev_product_url(123456, "devproduct1", 500),
        "https://develop.roblox.com/v1/universes/123456/developerproducts?name=devproduct1&description=500&priceInRobux=500"
    );
}

#[test]
fn cursor_appending() {
    assert_eq!(
        urls::page_url("https://x/servers/Public?limit=100", "c1"),
        "https://x/servers/Public?limit=100&cursor=c1"
    );
}

#[test]
fn cookie_header() {
    assert_eq!(urls::cookie_header_value("abc123"), ".ROBLOSECURITY=abc123");
    assert!(urls::user_agent().starts_with("Mozilla/5.0"));
}
