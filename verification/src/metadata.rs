//! Reading card metadata. The JSON itself is taken apart by `serde_json`
//! behind trusted wrappers, one per document shape; what each record means —
//! which cards exist, which are kept, what their image URL is — is decided
//! and proved here.

use crate::pipeline::PipelineError;
use crate::strutil::{concat2, str_eq};
use crate::tcg::{cards_view, CardView, GaCard, GaCardDetail, GaEdition, TcgType, UnifiedCard};
use vstd::prelude::*;
use vstd::string::StringExecFns;

verus! {

/// The records of a Magic-style card file: per card its id and, when
/// present, its PNG image URL; `None` when the text does not parse as such
/// a file.
pub uninterp spec fn mtg_metadata(s: Seq<char>) -> Option<Seq<(Seq<char>, Option<Seq<char>>)>>;

/// The records of a Grand-Archive-style card file: per record its slug and
/// image URL, either of which a record may lack; `None` when the text does
/// not parse as such a file.
pub uninterp spec fn ga_metadata(s: Seq<char>) -> Option<Seq<(Option<Seq<char>>, Option<Seq<char>>)>>;

/// The entries of a bulk-data envelope: per entry its type marker and its
/// download URL; `None` when the text does not parse as an envelope.
pub uninterp spec fn bulk_entries(s: Seq<char>) -> Option<Seq<(Seq<char>, Seq<char>)>>;

/// A card-detail document: the card's name and, per edition, its slug and
/// image path; `None` when the text does not parse as one.
pub uninterp spec fn ga_detail(s: Seq<char>) -> Option<(Seq<char>, Seq<(Seq<char>, Seq<char>)>)>;

/// A card-listing document: per card its name and slug; `None` when the
/// text does not parse as one.
pub uninterp spec fn ga_card_list(s: Seq<char>) -> Option<Seq<(Seq<char>, Seq<char>)>>;

/// Relies on `serde_json::from_str` and `serde_json::Value::{get, as_str,
/// is_null}`: parsing is a function of the text alone. A record must carry a
/// string `id`; `image_uris` may be absent or null, but when it is an object
/// it must carry a string `png`, as the Magic card dumps do.
#[verifier::external_body]
fn parse_mtg_metadata(s: &str) -> (r: Option<Vec<(String, Option<String>)>>)
    ensures
        r.deep_view() == mtg_metadata(s@),
{
    let vals: Vec<serde_json::Value> = serde_json::from_str(s).ok()?;
    let mut out: Vec<(String, Option<String>)> = Vec::new();
    for v in vals.iter() {
        let id = v.get("id")?.as_str()?.to_string();
        let png = match v.get("image_uris") {
            None | Some(serde_json::Value::Null) => None,
            Some(u) => Some(u.get("png")?.as_str()?.to_string()),
        };
        out.push((id, png));
    }
    Some(out)
}

/// Relies on `serde_json::from_str` and `serde_json::Value::{get, as_str}`:
/// parsing is a function of the text alone. Each record's `slug` and `image`
/// are read out when they are strings and reported absent otherwise.
#[verifier::external_body]
fn parse_ga_metadata(s: &str) -> (r: Option<Vec<(Option<String>, Option<String>)>>)
    ensures
        r.deep_view() == ga_metadata(s@),
{
    let vals: Vec<serde_json::Value> = serde_json::from_str(s).ok()?;
    Some(vals.iter().map(|v| (
        v.get("slug").and_then(|f| f.as_str()).map(|x| x.to_string()),
        v.get("image").and_then(|f| f.as_str()).map(|x| x.to_string()),
    )).collect())
}

/// Relies on `serde_json::from_str` and `serde_json::Value::{get, as_str,
/// as_array, is_object}`: parsing is a function of the text alone. The
/// envelope is an object whose `data` array may be missing (then empty);
/// every entry must carry string `type` and `download_uri` fields.
#[verifier::external_body]
fn parse_bulk_envelope(s: &str) -> (r: Option<Vec<(String, String)>>)
    ensures
        r.deep_view() == bulk_entries(s@),
{
    let root: serde_json::Value = serde_json::from_str(s).ok()?;
    if !root.is_object() {
        return None;
    }
    let items = match root.get("data") {
        None => return Some(Vec::new()),
        Some(d) => d.as_array()?,
    };
    let mut out: Vec<(String, String)> = Vec::new();
    for it in items.iter() {
        out.push((it.get("type")?.as_str()?.to_string(), it.get("download_uri")?.as_str()?.to_string()));
    }
    Some(out)
}

/// Relies on `serde_json::from_str` and `serde_json::Value::{get, as_str,
/// as_array}`: parsing is a function of the text alone. A detail document
/// must carry a string `name` and an `editions` array whose members carry
/// string `slug` and `image` fields.
#[verifier::external_body]
fn parse_ga_detail(s: &str) -> (r: Option<(String, Vec<(String, String)>)>)
    ensures
        r.deep_view() == ga_detail(s@),
{
    let root: serde_json::Value = serde_json::from_str(s).ok()?;
    let name = root.get("name")?.as_str()?.to_string();
    let mut out: Vec<(String, String)> = Vec::new();
    for e in root.get("editions")?.as_array()?.iter() {
        out.push((e.get("slug")?.as_str()?.to_string(), e.get("image")?.as_str()?.to_string()));
    }
    Some((name, out))
}

/// Relies on `serde_json::from_str` and `serde_json::Value::{get, as_str}`:
/// parsing is a function of the text alone. Every record of a listing must
/// carry string `name` and `slug` fields.
#[verifier::external_body]
fn parse_ga_card_list(s: &str) -> (r: Option<Vec<(String, String)>>)
    ensures
        r.deep_view() == ga_card_list(s@),
{
    let vals: Vec<serde_json::Value> = serde_json::from_str(s).ok()?;
    let mut out: Vec<(String, String)> = Vec::new();
    for v in vals.iter() {
        out.push((v.get("name")?.as_str()?.to_string(), v.get("slug")?.as_str()?.to_string()));
    }
    Some(out)
}

/// What a Magic record list normalizes to: one card per record that has an
/// image URL, in order; records without one are dropped.
pub open spec fn spec_normalize_mtg(recs: Seq<(Seq<char>, Option<Seq<char>>)>) -> Seq<CardView>
    decreases recs.len(),
{
    if recs.len() == 0 {
        Seq::empty()
    } else {
        let rest = spec_normalize_mtg(recs.drop_last());
        match recs.last().1 {
            Some(url) => rest.push(CardView { id: recs.last().0, image_url: url }),
            None => rest,
        }
    }
}

/// What one Grand Archive record normalizes to: a missing slug becomes the
/// id `unknown`, a missing image an empty URL.
pub open spec fn spec_ga_card(rec: (Option<Seq<char>>, Option<Seq<char>>)) -> CardView {
    CardView {
        id: match rec.0 {
            Some(s) => s,
            None => "unknown"@,
        },
        image_url: match rec.1 {
            Some(s) => s,
            None => Seq::empty(),
        },
    }
}

/// What a Grand Archive record list normalizes to: one card per record.
pub open spec fn spec_normalize_ga(recs: Seq<(Option<Seq<char>>, Option<Seq<char>>)>) -> Seq<
    CardView,
> {
    Seq::new(recs.len(), |i: int| spec_ga_card(recs[i]))
}

/// What loading a metadata text means for a game: the parsed records
/// normalized to cards, or the structural error that aborts a run.
pub open spec fn spec_load_cards(s: Seq<char>, tcg: TcgType) -> Result<Seq<CardView>, PipelineError> {
    match tcg {
        TcgType::Mtg => match mtg_metadata(s) {
            None => Err(PipelineError::InvalidMetadata),
            Some(m) => Ok(spec_normalize_mtg(m)),
        },
        TcgType::Ga => match ga_metadata(s) {
            None => Err(PipelineError::InvalidMetadata),
            Some(m) => Ok(spec_normalize_ga(m)),
        },
    }
}

/// Turn parsed Magic records into cards, keeping exactly those with an
/// image URL.
pub fn normalize_mtg_records(recs: &Vec<(String, Option<String>)>) -> (r: Vec<UnifiedCard>)
    ensures
        cards_view(r@) == spec_normalize_mtg(recs.deep_view()),
{
    let n = recs.len();
    let mut r: Vec<UnifiedCard> = Vec::new();
    let mut i: usize = 0;
    while i < n
        invariant
            n == recs@.len(),
            i <= n,
            cards_view(r@) == spec_normalize_mtg(recs.deep_view().take(i as int)),
        decreases n - i,
    {
        proof {
            assert(recs.deep_view().take(i + 1).drop_last() =~= recs.deep_view().take(i as int));
            assert(recs.deep_view().take(i + 1).last() == recs.deep_view()[i as int]);
        }
        let (id, png) = &recs[i];
        match png {
            Some(url) => {
                r.push(UnifiedCard { id: id.clone(), image_url: url.clone() });
                proof {
                    assert(cards_view(r@) =~= spec_normalize_mtg(
                        recs.deep_view().take(i + 1),
                    ));
                }
            },
            None => {
                proof {
                    assert(cards_view(r@) =~= spec_normalize_mtg(
                        recs.deep_view().take(i + 1),
                    ));
                }
            },
        }
        i = i + 1;
    }
    proof {
        assert(recs.deep_view().take(n as int) =~= recs.deep_view());
    }
    r
}

/// Turn parsed Grand Archive records into cards, one per record.
pub fn normalize_ga_records(recs: &Vec<(Option<String>, Option<String>)>) -> (r: Vec<UnifiedCard>)
    ensures
        cards_view(r@) == spec_normalize_ga(recs.deep_view()),
{
    let n = recs.len();
    let mut r: Vec<UnifiedCard> = Vec::new();
    let mut i: usize = 0;
    while i < n
        invariant
            n == recs@.len(),
            i <= n,
            r@.len() == i,
            forall|j: int| 0 <= j < i ==> #[trigger] r@[j]@ == spec_ga_card(recs.deep_view()[j]),
        decreases n - i,
    {
        let (slug, image) = &recs[i];
        let id = match slug {
            Some(s) => s.clone(),
            None => String::from_str("unknown"),
        };
        let url = match image {
            Some(s) => s.clone(),
            None => String::new(),
        };
        r.push(UnifiedCard { id, image_url: url });
        i = i + 1;
    }
    proof {
        assert(cards_view(r@) =~= spec_normalize_ga(recs.deep_view()));
    }
    r
}

/// Load the card list of a run from metadata text, the shape selected by
/// the game tag rather than by inspecting the text.
pub fn load_cards(json: &str, tcg: &TcgType) -> (r: Result<Vec<UnifiedCard>, PipelineError>)
    ensures
        r matches Ok(v) ==> spec_load_cards(json@, *tcg) == Ok::<_, PipelineError>(cards_view(v@)),
        r matches Err(e) ==> spec_load_cards(json@, *tcg) == Err::<Seq<CardView>, _>(e),
{
    match tcg {
        TcgType::Mtg => match parse_mtg_metadata(json) {
            None => Err(PipelineError::InvalidMetadata),
            Some(recs) => Ok(normalize_mtg_records(&recs)),
        },
        TcgType::Ga => match parse_ga_metadata(json) {
            None => Err(PipelineError::InvalidMetadata),
            Some(recs) => Ok(normalize_ga_records(&recs)),
        },
    }
}

/// The download URL of the first envelope entry with the wanted type
/// marker, if any.
pub open spec fn spec_select_bulk(entries: Seq<(Seq<char>, Seq<char>)>, wanted: Seq<char>) -> Option<
    Seq<char>,
>
    decreases entries.len(),
{
    if entries.len() == 0 {
        None
    } else if entries.first().0 == wanted {
        Some(entries.first().1)
    } else {
        spec_select_bulk(entries.drop_first(), wanted)
    }
}

/// Pick, from a parsed bulk envelope, the download URL of the first entry
/// of the wanted type.
pub fn select_bulk_download(entries: &Vec<(String, String)>, wanted: &str) -> (r: Option<String>)
    ensures
        r matches Some(u) ==> spec_select_bulk(entries.deep_view(), wanted@) == Some(u@),
        r is None ==> spec_select_bulk(entries.deep_view(), wanted@) is None,
{
    let n = entries.len();
    let mut i: usize = 0;
    proof {
        assert(entries.deep_view().skip(0) =~= entries.deep_view());
    }
    while i < n
        invariant
            n == entries@.len(),
            i <= n,
            spec_select_bulk(entries.deep_view(), wanted@) == spec_select_bulk(
                entries.deep_view().skip(i as int),
                wanted@,
            ),
        decreases n - i,
    {
        proof {
            assert(entries.deep_view().skip(i as int).first() == entries.deep_view()[i as int]);
            assert(entries.deep_view().skip(i as int).drop_first() =~= entries.deep_view().skip(
                i + 1,
            ));
        }
        let (t, u) = &entries[i];
        if str_eq(t.as_str(), wanted) {
            return Some(u.clone());
        }
        i = i + 1;
    }
    proof {
        assert(entries.deep_view().skip(n as int) =~= Seq::<(Seq<char>, Seq<char>)>::empty());
    }
    None
}

/// Parse a bulk envelope, or report the structural error.
pub fn load_bulk_entries(json: &str) -> (r: Result<Vec<(String, String)>, PipelineError>)
    ensures
        r matches Ok(v) ==> bulk_entries(json@) == Some(v.deep_view()),
        r is Err ==> bulk_entries(json@) is None && r == Err::<Vec<(String, String)>, _>(
            PipelineError::InvalidMetadata,
        ),
{
    match parse_bulk_envelope(json) {
        None => Err(PipelineError::InvalidMetadata),
        Some(v) => Ok(v),
    }
}

/// Parse a card-listing document into cards, or report the structural
/// error.
pub fn load_ga_card_list(json: &str) -> (r: Result<Vec<GaCard>, PipelineError>)
    ensures
        r matches Ok(v) ==> ({
            &&& ga_card_list(json@) matches Some(l)
            &&& v@.len() == l.len()
            &&& forall|i: int|
                0 <= i < l.len() ==> #[trigger] v@[i].name@ == l[i].0 && v@[i].slug@ == l[i].1
        }),
        r is Err ==> ga_card_list(json@) is None,
{
    let recs = match parse_ga_card_list(json) {
        None => return Err(PipelineError::InvalidMetadata),
        Some(v) => v,
    };
    let n = recs.len();
    let mut out: Vec<GaCard> = Vec::new();
    let mut i: usize = 0;
    while i < n
        invariant
            n == recs@.len(),
            recs.deep_view() == ga_card_list(json@).unwrap(),
            ga_card_list(json@) is Some,
            i <= n,
            out@.len() == i,
            forall|j: int|
                0 <= j < i ==> #[trigger] out@[j].name@ == recs.deep_view()[j].0
                    && out@[j].slug@ == recs.deep_view()[j].1,
        decreases n - i,
    {
        let (name, slug) = &recs[i];
        out.push(GaCard { name: name.clone(), slug: slug.clone() });
        i = i + 1;
    }
    Ok(out)
}

/// Parse a card-detail document into the card and its editions, or report
/// the structural error.
pub fn load_ga_card_detail(json: &str) -> (r: Result<GaCardDetail, PipelineError>)
    ensures
        r matches Ok(d) ==> ({
            &&& ga_detail(json@) matches Some(doc)
            &&& d.name@ == doc.0
            &&& d.editions@.len() == doc.1.len()
            &&& forall|i: int|
                0 <= i < doc.1.len() ==> #[trigger] d.editions@[i].slug@ == doc.1[i].0
                    && d.editions@[i].image@ == doc.1[i].1
        }),
        r is Err ==> ga_detail(json@) is None,
{
    let (name, eds) = match parse_ga_detail(json) {
        None => return Err(PipelineError::InvalidMetadata),
        Some(v) => v,
    };
    let n = eds.len();
    let mut editions: Vec<GaEdition> = Vec::new();
    let mut i: usize = 0;
    while i < n
        invariant
            n == eds@.len(),
            (name@, eds.deep_view()) == ga_detail(json@).unwrap(),
            ga_detail(json@) is Some,
            i <= n,
            editions@.len() == i,
            forall|j: int|
                0 <= j < i ==> #[trigger] editions@[j].slug@ == eds.deep_view()[j].0
                    && editions@[j].image@ == eds.deep_view()[j].1,
        decreases n - i,
    {
        let (slug, image) = &eds[i];
        editions.push(GaEdition { slug: slug.clone(), image: image.clone() });
        i = i + 1;
    }
    Ok(GaCardDetail { name, editions })
}

/// Base of Grand Archive image URLs; edition image paths are relative to it.
pub const GA_IMAGE_BASE: &'static str = "https://api.gatcg.com";

/// What the editions of a sequence of card details flatten to: one card per
/// edition, the edition's slug as the id and its image path made absolute.
pub open spec fn spec_detail_cards(d: GaCardDetail) -> Seq<CardView> {
    Seq::new(
        d.editions@.len(),
        |i: int|
            CardView {
                id: d.editions@[i].slug@,
                image_url: GA_IMAGE_BASE@ + d.editions@[i].image@,
            },
    )
}

/// All editions of all details, in document order.
pub open spec fn spec_edition_cards(details: Seq<GaCardDetail>) -> Seq<CardView>
    decreases details.len(),
{
    if details.len() == 0 {
        Seq::empty()
    } else {
        spec_edition_cards(details.drop_last()) + spec_detail_cards(details.last())
    }
}

/// Flatten card details into one downloadable card per edition, each image
/// path made absolute against the Grand Archive host.
pub fn flatten_editions(details: &Vec<GaCardDetail>) -> (r: Vec<UnifiedCard>)
    ensures
        cards_view(r@) == spec_edition_cards(details@),
{
    let n = details.len();
    let mut r: Vec<UnifiedCard> = Vec::new();
    let mut i: usize = 0;
    while i < n
        invariant
            n == details@.len(),
            i <= n,
            cards_view(r@) == spec_edition_cards(details@.take(i as int)),
        decreases n - i,
    {
        proof {
            assert(details@.take(i + 1).drop_last() =~= details@.take(i as int));
            assert(details@.take(i + 1).last() == details@[i as int]);
        }
        let m = details[i].editions.len();
        let mut j: usize = 0;
        while j < m
            invariant
                n == details@.len(),
                i < n,
                m == details@[i as int].editions@.len(),
                j <= m,
                cards_view(r@) == spec_edition_cards(details@.take(i as int))
                    + spec_detail_cards(details@[i as int]).take(j as int),
            decreases m - j,
        {
            let ed = &details[i].editions[j];
            r.push(
                UnifiedCard {
                    id: ed.slug.clone(),
                    image_url: concat2(GA_IMAGE_BASE, ed.image.as_str()),
                },
            );
            proof {
                let a = spec_edition_cards(details@.take(i as int));
                let b = spec_detail_cards(details@[i as int]);
                assert(b.take(j + 1) =~= b.take(j as int).push(b[j as int]));
                assert(r@.last()@ =~~= b[j as int]);
                assert(cards_view(r@) =~~= (a + b.take(j as int)).push(b[j as int]));
                assert((a + b.take(j as int)).push(b[j as int]) =~= a + b.take(j as int).push(
                    b[j as int],
                ));
                assert(cards_view(r@) =~~= a + b.take(j + 1));
            }
            j = j + 1;
        }
        proof {
            assert(spec_detail_cards(details@[i as int]).take(m as int) =~= spec_detail_cards(
                details@[i as int],
            ));
            assert(cards_view(r@) =~= spec_edition_cards(details@.take(i + 1)));
        }
        i = i + 1;
    }
    proof {
        assert(details@.take(n as int) =~= details@);
    }
    r
}

} // verus!
