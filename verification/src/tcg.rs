//! Card game identifiers and the per-game API constants.

use vstd::prelude::*;

verus! {

/// Which trading card game a metadata file or a download run concerns.
#[derive(Debug, Clone, Copy, PartialEq, Eq, Structural)]
pub enum TcgType {
    /// Magic: The Gathering
    Mtg,
    /// Grand Archive
    Ga,
}

/// One card, normalized from either metadata shape: the id names the card's
/// directory on disk, the URL points at its primary image.
#[derive(Debug, Clone)]
pub struct UnifiedCard {
    pub id: String,
    pub image_url: String,
}

/// Mathematical value of a card: its two strings as character sequences.
#[verifier::ext_equal]
pub ghost struct CardView {
    pub id: Seq<char>,
    pub image_url: Seq<char>,
}

impl View for UnifiedCard {
    type V = CardView;

    open spec fn view(&self) -> CardView {
        CardView { id: self.id@, image_url: self.image_url@ }
    }
}

impl UnifiedCard {
    /// A copy whose value is the same card.
    pub fn duplicate(&self) -> (r: UnifiedCard)
        ensures
            r == *self,
    {
        UnifiedCard { id: self.id.clone(), image_url: self.image_url.clone() }
    }
}

/// File-name marker of the metadata file kept for a game.
pub fn get_api_type(tcg_type: &TcgType) -> (r: &'static str)
    ensures
        *tcg_type == TcgType::Mtg ==> r@ == "mtg_cards"@,
        *tcg_type == TcgType::Ga ==> r@ == "ga_cards"@,
{
    match tcg_type {
        TcgType::Mtg => "mtg_cards",
        TcgType::Ga => "ga_cards",
    }
}

/// Endpoint that lists a game's cards.
pub fn get_api_url(tcg_type: &TcgType) -> (r: &'static str)
    ensures
        *tcg_type == TcgType::Mtg ==> r@ == "https://api.scryfall.com/bulk-data"@,
        *tcg_type == TcgType::Ga ==> r@ == "https://api.gatcg.com/cards/all"@,
{
    match tcg_type {
        TcgType::Mtg => "https://api.scryfall.com/bulk-data",
        TcgType::Ga => "https://api.gatcg.com/cards/all",
    }
}

/// Identifying user-agent sent with every request.
pub fn get_user_agent() -> (r: &'static str)
    ensures
        r@ == "TCGFetch"@,
{
    "TCGFetch"
}

/// The view of a card sequence: each card as its mathematical value.
pub open spec fn cards_view(s: Seq<UnifiedCard>) -> Seq<CardView> {
    Seq::new(s.len(), |i: int| s[i]@)
}

/// A Grand Archive card as the listing endpoint returns it.
#[derive(Debug)]
pub struct GaCard {
    pub name: String,
    pub slug: String,
}

/// One printed edition of a Grand Archive card; `image` is a site-relative
/// path.
#[derive(Debug)]
pub struct GaEdition {
    pub slug: String,
    pub image: String,
}

/// A Grand Archive card with all its editions, as the detail endpoint
/// returns it.
#[derive(Debug)]
pub struct GaCardDetail {
    pub name: String,
    pub editions: Vec<GaEdition>,
}

/// Scryfall endpoints for Magic: The Gathering.
pub struct MtgApi;

impl MtgApi {
    pub fn get_api_url() -> (r: &'static str)
        ensures
            r@ == "https://api.scryfall.com/bulk-data"@,
    {
        "https://api.scryfall.com/bulk-data"
    }

    pub fn get_api_type() -> (r: &'static str)
        ensures
            r@ == "mtg_cards"@,
    {
        "mtg_cards"
    }
}

/// Grand Archive endpoints.
pub struct GaApi;

impl GaApi {
    pub fn get_api_url() -> (r: &'static str)
        ensures
            r@ == "https://api.gatcg.com/cards/all"@,
    {
        "https://api.gatcg.com/cards/all"
    }
}

} // verus!
