//! Endpoint URL templates and header values.
//!
//! Every request the client makes interpolates identifiers or cursors into
//! one of these absolute URL templates. The builders are verified against
//! spec-level concatenations so callers can reason about the exact URL a
//! traversal or lookup will fetch.

use vstd::prelude::*;
use vstd::string::StringExecFns;

use crate::text::{spec_decimal, u64_to_string};

verus! {

/// The info endpoint of the logged-in account.
pub open spec fn spec_user_info_url() -> Seq<char> {
    "https://www.roblox.com/mobileapi/userinfo"@
}

/// The endpoint whose rejection hands out a fresh anti-forgery token.
pub open spec fn spec_logout_url() -> Seq<char> {
    "https://auth.roblox.com/v2/logout"@
}

/// The legacy profile record of a user.
pub open spec fn spec_base_user_url(id: int) -> Seq<char> {
    "https://api.roblox.com/users/"@ + spec_decimal(id)
}

/// The detail profile record of a user.
pub open spec fn spec_user_detail_url(id: int) -> Seq<char> {
    "https://users.roblox.com/v1/users/"@ + spec_decimal(id)
}

/// The username-to-id lookup endpoint.
pub open spec fn spec_usernames_lookup_url() -> Seq<char> {
    "https://users.roblox.com/v1/usernames/users"@
}

/// One page of a user's friends list.
pub open spec fn spec_friends_url(id: int, page: int) -> Seq<char> {
    "https://api.roblox.com/users/"@ + spec_decimal(id) + "/friends?page="@ + spec_decimal(page)
}

/// The asset-ownership check for one user and one asset.
pub open spec fn spec_has_asset_url(user_id: int, asset_id: int) -> Seq<char> {
    "https://api.roblox.com/ownership/hasasset?userId="@ + spec_decimal(user_id) + "&assetId="@
        + spec_decimal(asset_id)
}

/// The place-details record that maps a place to its universe.
pub open spec fn spec_place_details_url(place_id: int) -> Seq<char> {
    "https://games.roblox.com/v1/games/multiget-place-details?placeIds="@ + spec_decimal(place_id)
}

/// The game record of a universe.
pub open spec fn spec_games_by_universe_url(universe_id: int) -> Seq<char> {
    "https://games.roblox.com/v1/games?universeIds="@ + spec_decimal(universe_id)
}

/// The first page of a game's public server list.
pub open spec fn spec_servers_url(place_id: int) -> Seq<char> {
    "https://games.roblox.com/v1/games/"@ + spec_decimal(place_id) + "/servers/Public?limit=100"@
}

/// The developer-product creation endpoint; the price doubles as the
/// product description.
pub open spec fn spec_dev_product_url(universe_id: int, name: Seq<char>, price: int) -> Seq<char> {
    "https://develop.roblox.com/v1/universes/"@ + spec_decimal(universe_id)
        + "/developerproducts?name="@ + name + "&description="@ + spec_decimal(price)
        + "&priceInRobux="@ + spec_decimal(price)
}

/// A page URL: the base URL with the server-issued cursor appended.
pub open spec fn spec_page_url(base: Seq<char>, cursor: Seq<char>) -> Seq<char> {
    base + "&cursor="@ + cursor
}

/// The default `Cookie` header value carrying the session credential.
pub open spec fn spec_cookie_header_value(credential: Seq<char>) -> Seq<char> {
    ".ROBLOSECURITY="@ + credential
}

pub fn user_info_url() -> (u: &'static str)
    ensures
        u@ == spec_user_info_url(),
{
    "https://www.roblox.com/mobileapi/userinfo"
}

pub fn logout_url() -> (u: &'static str)
    ensures
        u@ == spec_logout_url(),
{
    "https://auth.roblox.com/v2/logout"
}

pub fn base_user_url(id: u64) -> (u: String)
    ensures
        u@ == spec_base_user_url(id as int),
{
    let mut s = String::from_str("https://api.roblox.com/users/");
    let num = u64_to_string(id);
    s.append(num.as_str());
    s
}

pub fn user_detail_url(id: u64) -> (u: String)
    ensures
        u@ == spec_user_detail_url(id as int),
{
    let mut s = String::from_str("https://users.roblox.com/v1/users/");
    let num = u64_to_string(id);
    s.append(num.as_str());
    s
}

pub fn usernames_lookup_url() -> (u: &'static str)
    ensures
        u@ == spec_usernames_lookup_url(),
{
    "https://users.roblox.com/v1/usernames/users"
}

pub fn friends_url(id: u64, page: u32) -> (u: String)
    ensures
        u@ == spec_friends_url(id as int, page as int),
{
    let mut s = String::from_str("https://api.roblox.com/users/");
    let num = u64_to_string(id);
    s.append(num.as_str());
    s.append("/friends?page=");
    let pagenum = u64_to_string(page as u64);
    s.append(pagenum.as_str());
    proof {
        assert(s@ =~= spec_friends_url(id as int, page as int));
    }
    s
}

pub fn has_asset_url(user_id: u64, asset_id: u64) -> (u: String)
    ensures
        u@ == spec_has_asset_url(user_id as int, asset_id as int),
{
    let mut s = String::from_str("https://api.roblox.com/ownership/hasasset?userId=");
    let unum = u64_to_string(user_id);
    s.append(unum.as_str());
    s.append("&assetId=");
    let anum = u64_to_string(asset_id);
    s.append(anum.as_str());
    proof {
        assert(s@ =~= spec_has_asset_url(user_id as int, asset_id as int));
    }
    s
}

pub fn place_details_url(place_id: u64) -> (u: String)
    ensures
        u@ == spec_place_details_url(place_id as int),
{
    let mut s = String::from_str("https://games.roblox.com/v1/games/multiget-place-details?placeIds=");
    let num = u64_to_string(place_id);
    s.append(num.as_str());
    s
}

pub fn games_by_universe_url(universe_id: u64) -> (u: String)
    ensures
        u@ == spec_games_by_universe_url(universe_id as int),
{
    let mut s = String::from_str("https://games.roblox.com/v1/games?universeIds=");
    let num = u64_to_string(universe_id);
    s.append(num.as_str());
    s
}

pub fn servers_url(place_id: u64) -> (u: String)
    ensures
        u@ == spec_servers_url(place_id as int),
{
    let mut s = String::from_str("https://games.roblox.com/v1/games/");
    let num = u64_to_string(place_id);
    s.append(num.as_str());
    s.append("/servers/Public?limit=100");
    proof {
        assert(s@ =~= spec_servers_url(place_id as int));
    }
    s
}

pub fn dev_product_url(universe_id: u64, name: &str, price: u32) -> (u: String)
    ensures
        u@ == spec_dev_product_url(universe_id as int, name@, price as int),
{
    let mut s = String::from_str("https://develop.roblox.com/v1/universes/");
    let unum = u64_to_string(universe_id);
    s.append(unum.as_str());
    s.append("/developerproducts?name=");
    s.append(name);
    s.append("&description=");
    let pnum = u64_to_string(price as u64);
    s.append(pnum.as_str());
    s.append("&priceInRobux=");
    s.append(pnum.as_str());
    proof {
        assert(s@ =~= spec_dev_product_url(universe_id as int, name@, price as int));
    }
    s
}

pub fn page_url(base: &str, cursor: &str) -> (u: String)
    ensures
        u@ == spec_page_url(base@, cursor@),
{
    let mut s = String::from_str(base);
    s.append("&cursor=");
    s.append(cursor);
    proof {
        assert(s@ =~= spec_page_url(base@, cursor@));
    }
    s
}

pub fn cookie_header_value(credential: &str) -> (v: String)
    ensures
        v@ == spec_cookie_header_value(credential@),
{
    let mut s = String::from_str(".ROBLOSECURITY=");
    s.append(credential);
    s
}

/// The fixed identity header installed on the authenticated transport.
pub fn user_agent() -> (a: &'static str)
    ensures
        a@ == "Mozilla/5.0 (Windows NT 10.0; Win64; x64) AppleWebKit/537.36 (KHTML, like Gecko) Chrome/88.0.4324.152 Safari/537.36"@,
{
    "Mozilla/5.0 (Windows NT 10.0; Win64; x64) AppleWebKit/537.36 (KHTML, like Gecko) Chrome/88.0.4324.152 Safari/537.36"
}

} // verus!
