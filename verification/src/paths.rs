//! The on-disk layout, as strings: where a run keeps its metadata file and
//! where each card's canonical and transient images live.

use crate::strutil::{concat2, concat3};
use crate::tcg::{get_api_type, TcgType};
use vstd::prelude::*;
use vstd::string::StringExecFns;

verus! {

/// Directory that holds one subdirectory per card.
pub open spec fn spec_train_dir(output_dir: Seq<char>) -> Seq<char> {
    output_dir + "/data/train"@
}

pub fn train_dir_path(output_dir: &str) -> (r: String)
    ensures
        r@ == spec_train_dir(output_dir@),
{
    concat2(output_dir, "/data/train")
}

/// Directory of one card, keyed by its id.
pub open spec fn spec_card_dir(output_dir: Seq<char>, id: Seq<char>) -> Seq<char> {
    output_dir + "/data/train/"@ + id
}

pub fn card_dir_path(output_dir: &str, id: &str) -> (r: String)
    ensures
        r@ == spec_card_dir(output_dir@, id@),
{
    concat3(output_dir, "/data/train/", id)
}

/// The canonical final image of one card. Its presence is what the existence
/// check probes, for either game.
pub open spec fn spec_final_image_path(output_dir: Seq<char>, id: Seq<char>) -> Seq<char> {
    spec_card_dir(output_dir, id) + "/0000.jpg"@
}

pub fn final_image_path(output_dir: &str, id: &str) -> (r: String)
    ensures
        r@ == spec_final_image_path(output_dir@, id@),
{
    let dir = card_dir_path(output_dir, id);
    concat2(dir.as_str(), "/0000.jpg")
}

/// Name of the transient staging file inside a card's directory, named for
/// the game's source format; it must never outlive a task.
pub open spec fn spec_temp_file_name(tcg: TcgType) -> Seq<char> {
    match tcg {
        TcgType::Mtg => "temp.png"@,
        TcgType::Ga => "temp.jpg"@,
    }
}

pub fn temp_file_name(tcg: &TcgType) -> (r: &'static str)
    ensures
        r@ == spec_temp_file_name(*tcg),
{
    match tcg {
        TcgType::Mtg => "temp.png",
        TcgType::Ga => "temp.jpg",
    }
}

/// The transient download file of one card.
pub open spec fn spec_temp_image_path(output_dir: Seq<char>, id: Seq<char>, tcg: TcgType) -> Seq<
    char,
> {
    spec_card_dir(output_dir, id) + "/"@ + spec_temp_file_name(tcg)
}

pub fn temp_image_path(output_dir: &str, id: &str, tcg: &TcgType) -> (r: String)
    ensures
        r@ == spec_temp_image_path(output_dir@, id@, *tcg),
{
    let dir = card_dir_path(output_dir, id);
    concat3(dir.as_str(), "/", temp_file_name(tcg))
}

/// Name of the metadata file kept for a game in the output directory.
pub open spec fn spec_metadata_file_name(tcg: TcgType) -> Seq<char> {
    match tcg {
        TcgType::Mtg => "mtg_cards"@ + ".json"@,
        TcgType::Ga => "ga_cards"@ + ".json"@,
    }
}

pub fn metadata_file_name(tcg: &TcgType) -> (r: String)
    ensures
        r@ == spec_metadata_file_name(*tcg),
{
    concat2(get_api_type(tcg), ".json")
}

/// The directories a run must be able to create before any download starts:
/// the output root, its data directory and the train directory.
pub fn required_directories(base: &str) -> (r: Vec<String>)
    ensures
        r@.len() == 3,
        r@[0]@ == base@,
        r@[1]@ == base@ + "/data"@,
        r@[2]@ == spec_train_dir(base@),
{
    let mut dirs: Vec<String> = Vec::new();
    dirs.push(String::from_str(base));
    dirs.push(concat2(base, "/data"));
    dirs.push(concat2(base, "/data/train"));
    dirs
}

} // verus!
