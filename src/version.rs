use crate::level::Level;
use vstd::prelude::*;

verus! {

// Build metadata is not resolved when this crate is compiled, so each field
// reads as the fallback text `Unknown`.

/// Commit the binary was built from.
pub const COMMIT_ID: &'static str = "Unknown";

/// Date of that commit.
pub const COMMIT_DATE: &'static str = "Unknown";

/// Date of the build.
pub const BUILD_DATE: &'static str = "Unknown";

/// Branch the binary was built from.
pub const BRANCH: &'static str = "Unknown";

/// The JSON string literal, quotes included, that serde_json writes for `s`.
pub uninterp spec fn json_quoted(s: Seq<char>) -> Seq<char>;

/// Relies on serde_json's `Display` for `Value::String`: the escaped text of `s`
/// between two double quotes.
#[verifier::external_body]
fn json_string(s: &str) -> (r: String)
    ensures
        r@ == json_quoted(s@),
{
    serde_json::Value::String(s.to_string()).to_string()
}

/// One `"key":"value"` member of a JSON object.
pub open spec fn json_member(e: (Seq<char>, Seq<char>)) -> Seq<char> {
    json_quoted(e.0) + ":"@ + json_quoted(e.1)
}

/// The members of `entries`, in order, separated by commas.
pub open spec fn json_members(entries: Seq<(Seq<char>, Seq<char>)>) -> Seq<char>
    decreases entries.len(),
{
    if entries.len() == 0 {
        Seq::empty()
    } else if entries.len() == 1 {
        json_member(entries[0])
    } else {
        json_members(entries.drop_last()) + ","@ + json_member(entries.last())
    }
}

/// The compact JSON object whose members are `entries`, all with string values.
pub open spec fn json_object(entries: Seq<(Seq<char>, Seq<char>)>) -> Seq<char> {
    "{"@ + json_members(entries) + "}"@
}

/// The views of a list of string pairs.
pub open spec fn pair_views(v: Seq<(String, String)>) -> Seq<(Seq<char>, Seq<char>)> {
    v.map_values(|p: (String, String)| (p.0@, p.1@))
}

/// The version object: its members in key order.
pub open spec fn version_json(
    build_date: Seq<char>,
    commit_date: Seq<char>,
    commit_id: Seq<char>,
    branch: Seq<char>,
) -> Seq<char> {
    json_object(
        seq![
            ("Branch"@, branch),
            ("Build date"@, build_date),
            ("Commit date"@, commit_date),
            ("Commit id"@, commit_id),
        ],
    )
}

/// Renders string pairs as a compact JSON object, in the order given.
pub fn render_json_object(entries: &Vec<(String, String)>) -> (r: String)
    ensures
        r@ == json_object(pair_views(entries@)),
{
    let mut s = String::new();
    s.append("{");
    let mut k: usize = 0;
    while k < entries.len()
        invariant
            k <= entries@.len(),
            s@ == "{"@ + json_members(pair_views(entries@).take(k as int)),
        decreases entries@.len() - k,
    {
        if k > 0 {
            s.append(",");
        }
        let key = json_string(entries[k].0.as_str());
        let value = json_string(entries[k].1.as_str());
        s.append(key.as_str());
        s.append(":");
        s.append(value.as_str());
        proof {
            let pv = pair_views(entries@);
            let t = pv.take(k + 1);
            assert(t.drop_last() =~= pv.take(k as int));
            assert(t.last() == (entries@[k as int].0@, entries@[k as int].1@));
            if k == 0 {
                assert(pv.take(0) =~= Seq::<(Seq<char>, Seq<char>)>::empty());
            }
            assert(s@ =~= "{"@ + json_members(t));
        }
        k = k + 1;
    }
    s.append("}");
    proof {
        assert(pair_views(entries@).take(entries@.len() as int) =~= pair_views(entries@));
    }
    s
}

/// The four build metadata strings as one JSON object.
pub fn render_version_info(build_date: &str, commit_date: &str, commit_id: &str, branch: &str) -> (r:
    String)
    ensures
        r@ == version_json(build_date@, commit_date@, commit_id@, branch@),
{
    let mut v: Vec<(String, String)> = Vec::new();
    v.push((String::from_str("Branch"), String::from_str(branch)));
    v.push((String::from_str("Build date"), String::from_str(build_date)));
    v.push((String::from_str("Commit date"), String::from_str(commit_date)));
    v.push((String::from_str("Commit id"), String::from_str(commit_id)));
    let r = render_json_object(&v);
    proof {
        assert(pair_views(v@) =~= seq![
            ("Branch"@, branch@),
            ("Build date"@, build_date@),
            ("Commit date"@, commit_date@),
            ("Commit id"@, commit_id@),
        ]);
    }
    r
}

/// This binary's build metadata as a JSON object.
pub fn get_version_info() -> (r: String)
    ensures
        r@ == version_json(BUILD_DATE@, COMMIT_DATE@, COMMIT_ID@, BRANCH@),
{
    render_version_info(BUILD_DATE, COMMIT_DATE, COMMIT_ID, BRANCH)
}

/// The record that reports this binary's build metadata: the JSON object, at
/// `Info` level.
pub fn version_info_to_log() -> (r: (Level, String))
    ensures
        r.0 == Level::Info,
        r.1@ == version_json(BUILD_DATE@, COMMIT_DATE@, COMMIT_ID@, BRANCH@),
{
    (Level::Info, get_version_info())
}

} // verus!
