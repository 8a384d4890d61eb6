//! Game, server, and developer-product records.

use vstd::prelude::*;
use vstd::string::StringExecFns;

use crate::text::{spec_decimal, u64_to_string};

verus! {

/// A game's metadata record.
#[derive(Clone, Debug)]
pub struct Game {
    pub universe_id: u64,
    pub place_id: u64,
    pub name: String,
    pub description: String,
    pub price: Option<u64>,
    pub allowed_gear_genres: Vec<String>,
    pub allowed_gear_categories: Vec<String>,
    pub playing: u32,
    pub visits: u64,
    pub max_players: u8,
    pub created: String,
    pub updated: String,
    pub studio_access_to_apis_allowed: bool,
    pub create_vip_servers_allowed: bool,
    pub universe_avatar_type: String,
    pub genre: String,
}

/// One running server of a game. The transport-side record also reports a
/// frames-per-second sample; being a floating-point reading it stays with
/// the transport.
#[derive(Clone, Debug)]
pub struct Server {
    pub id: String,
    pub max_players: u8,
    pub playing: u32,
    pub ping: u32,
}

/// A developer product attached to a game's universe.
#[derive(Clone, Debug)]
pub struct DevProduct {
    pub name: String,
    pub price: u32,
    pub id: u64,
    pub description: String,
    pub image_asset_id: Option<u64>,
    pub shop_id: u64,
}

/// A value that names a game: the numeric place id.
pub trait GameBuilder: Sized {
    /// The place id this value stands for.
    spec fn spec_place_id(&self) -> u64;

    /// Turn the value into the place id to look up.
    fn place_id(self) -> (p: u64)
        ensures
            p == self.spec_place_id(),
    ;
}

impl GameBuilder for u64 {
    open spec fn spec_place_id(&self) -> u64 {
        *self
    }

    fn place_id(self) -> (p: u64) {
        self
    }
}

/// The display form of a game record.
pub open spec fn spec_describe_game(g: Game) -> Seq<char> {
    "Game(placeid="@ + spec_decimal(g.place_id as int) + ", name="@ + g.name@ + ")"@
}

/// The display form of a server record.
pub open spec fn spec_describe_server(s: Server) -> Seq<char> {
    "Game(id="@ + s.id@ + ", playing="@ + spec_decimal(s.playing as int) + ", max_players="@
        + spec_decimal(s.max_players as int) + ")"@
}

/// The display form of a developer product.
pub open spec fn spec_describe_dev_product(p: DevProduct) -> Seq<char> {
    "DevProduct(name="@ + p.name@ + ", price="@ + spec_decimal(p.price as int) + ", product_id="@
        + spec_decimal(p.id as int) + ")"@
}

impl Game {
    /// Render the record for display.
    pub fn describe(&self) -> (s: String)
        ensures
            s@ == spec_describe_game(*self),
    {
        let mut s = String::from_str("Game(placeid=");
        let num = u64_to_string(self.place_id);
        s.append(num.as_str());
        s.append(", name=");
        s.append(self.name.as_str());
        s.append(")");
        proof {
            assert(s@ =~= spec_describe_game(*self));
        }
        s
    }
}

impl Server {
    /// Render the record for display.
    pub fn describe(&self) -> (s: String)
        ensures
            s@ == spec_describe_server(*self),
    {
        let mut s = String::from_str("Game(id=");
        s.append(self.id.as_str());
        s.append(", playing=");
        let playing = u64_to_string(self.playing as u64);
        s.append(playing.as_str());
        s.append(", max_players=");
        let cap = u64_to_string(self.max_players as u64);
        s.append(cap.as_str());
        s.append(")");
        proof {
            assert(s@ =~= spec_describe_server(*self));
        }
        s
    }
}

impl DevProduct {
    /// Render the record for display.
    pub fn describe(&self) -> (s: String)
        ensures
            s@ == spec_describe_dev_product(*self),
    {
        let mut s = String::from_str("DevProduct(name=");
        s.append(self.name.as_str());
        s.append(", price=");
        let price = u64_to_string(self.price as u64);
        s.append(price.as_str());
        s.append(", product_id=");
        let id = u64_to_string(self.id);
        s.append(id.as_str());
        s.append(")");
        proof {
            assert(s@ =~= spec_describe_dev_product(*self));
        }
        s
    }
}

} // verus!
