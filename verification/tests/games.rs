use robloxapi::games::{DevProduct, Game, GameBuilder, Server};
use robloxapi::Client;

#[test]
fn game_key() {
    assert_eq!(7415484311u64.place_id(), 7415484311);
}

#[test]
fn game_display_form() {
    let game = Game {
        universe_id: 123456,
        place_id: 7415484311,
        name: "Obby".to_string(),
        description: "a game".to_string(),
        price: None,
        allowed_gear_genres: vec![],
        allowed_gear_categories: vec![],
        playing: 12,
        visits: 1000,
        max_players: 20,
        created: "2021-01-01".to_string(),
        updated: "2021-06-01".to_string(),
        studio_access_to_apis_allowed: false,
        create_vip_servers_allowed: false,
        universe_avatar_type: "MorphToR6".to_string(),
        genre: "All".to_string(),
    };
    assert_eq!(game.describe(), "Game(placeid=7415484311, name=Obby)");
}

#[test]
fn server_display_form() {
    let server = Server {
        id: "abc-123".to_string(),
        max_players: 20,
        playing: 14,
        ping: 52,
    };
    assert_eq!(server.describe(), "Game(id=abc-123, playing=14, max_players=20)");
}

#[test]
fn dev_product_display_form() {
    let product = DevProduct {
        name: "devproduct1".to_string(),
        price: 500,
        id: 99,
        description: "500".to_string(),
        image_asset_id: None,
        shop_id: 7,
    };
    assert_eq!(product.describe(), "DevProduct(name=devproduct1, price=500, product_id=99)");
}

#[test]
fn fresh_client_has_no_token() {
    let client = Client::new();
    assert!(client.session.token.is_none());
    let defaulted = Client::default();
    assert!(defaulted.session.token.is_none());
}
