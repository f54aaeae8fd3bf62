use vstd::prelude::*;
use crate::model::{Profile, ProfileResult, ProfileScenario, ProfileView, ScenarioView};
use crate::status::status_text;

verus! {

/// The decimal digits of a number, most significant first.
pub open spec fn decimal(n: nat) -> Seq<char>
    decreases n,
{
    if n < 10 {
        seq!["0123456789"@[n as int]]
    } else {
        decimal(n / 10).push("0123456789"@[(n % 10) as int])
    }
}

/// Relies on u64's ToString (its Display): the decimal digits, no sign, no
/// leading zero.
#[verifier::external_body]
fn decimal_text(n: u64) -> (r: String)
    ensures
        r@ == decimal(n as nat),
{
    n.to_string()
}

/// Each text followed by a line break, one after another.
pub open spec fn lines(texts: Seq<Seq<char>>) -> Seq<char>
    decreases texts.len(),
{
    if texts.len() == 0 {
        Seq::empty()
    } else {
        lines(texts.drop_last()) + texts.last() + "\n"@
    }
}

pub open spec fn profile_text(p: ProfileView) -> Seq<char> {
    "scenario_name: "@ + p.scenario_name + "\n"@ + "status: "@ + p.status + "\n"@ + "time_in_ms: "@
        + decimal(p.time_in_ms as nat) + "\n"@ + "profile_url: "@ + p.profile_url + "\n"@
}

pub open spec fn scenario_text(s: ScenarioView) -> Seq<char> {
    "name: "@ + s.name + "\n"@ + "time: "@ + decimal(s.time as nat) + "\n"@ + "Screenshots:\n"@
        + lines(s.screenshots) + "Thumbnail Screenshots:\n"@ + lines(s.thumbnail_screenshots)
}

/// The status line, each profile followed by a blank line, and a closing
/// blank line.
pub open spec fn result_text(r: ProfileResult) -> Seq<char> {
    "status: "@ + status_text(r.status) + "\n"@ + lines(
        r.profiles@.map_values(|p: Profile| profile_text(p@)),
    ) + "\n"@
}

/// Appends each text of `texts` and a line break after it.
fn push_lines(out: &mut String, texts: &Vec<String>)
    ensures
        final(out)@ == old(out)@ + lines(texts@.map_values(|t: String| t@)),
{
    let ghost start = out@;
    let mut i: usize = 0;
    while i < texts.len()
        invariant
            0 <= i <= texts@.len(),
            out@ == start + lines(texts@.map_values(|t: String| t@).take(i as int)),
        decreases texts@.len() - i,
    {
        let ghost views = texts@.map_values(|t: String| t@);
        assert(views.take(i + 1).drop_last() =~= views.take(i as int));
        out.append(texts[i].as_str());
        out.append("\n");
        i += 1;
        assert(out@ =~= start + lines(views.take(i as int)));
    }
    assert(texts@.map_values(|t: String| t@).take(texts@.len() as int) =~= texts@.map_values(
        |t: String| t@,
    ));
}

impl Profile {
    /// The profile's fields, one per line.
    pub fn to_text(&self) -> (r: String)
        ensures
            r@ == profile_text(self@),
    {
        let mut out = String::from_str("scenario_name: ");
        out.append(self.scenario_name.as_str());
        out.append("\n");
        out.append("status: ");
        out.append(self.status.as_str());
        out.append("\n");
        out.append("time_in_ms: ");
        let time = decimal_text(self.time_in_ms);
        out.append(time.as_str());
        out.append("\n");
        out.append("profile_url: ");
        out.append(self.profile_url.as_str());
        out.append("\n");
        proof {
            assert(out@ =~= profile_text(self@));
        }
        out
    }
}

impl ProfileScenario {
    /// The scenario's name, its time in milliseconds, and its two lists of
    /// screenshots, each under a heading.
    pub fn to_text(&self) -> (r: String)
        ensures
            r@ == scenario_text(self@),
    {
        let mut out = String::from_str("name: ");
        out.append(self.name.as_str());
        out.append("\n");
        out.append("time: ");
        let time = decimal_text(self.time);
        out.append(time.as_str());
        out.append("\n");
        out.append("Screenshots:\n");
        push_lines(&mut out, &self.screenshots);
        out.append("Thumbnail Screenshots:\n");
        push_lines(&mut out, &self.thumbnail_screenshots);
        proof {
            assert(out@ =~= scenario_text(self@));
        }
        out
    }
}

impl ProfileResult {
    /// The status, then each profile.
    pub fn to_text(&self) -> (r: String)
        ensures
            r@ == result_text(*self),
    {
        let mut out = String::from_str("status: ");
        let status = self.status.to_text();
        out.append(status.as_str());
        out.append("\n");
        let mut texts: Vec<String> = Vec::new();
        let mut i: usize = 0;
        while i < self.profiles.len()
            invariant
                0 <= i <= self.profiles@.len(),
                texts@.len() == i,
                forall|j: int| 0 <= j < i ==> #[trigger] texts@[j]@ == profile_text(self.profiles@[j]@),
            decreases self.profiles@.len() - i,
        {
            let t = self.profiles[i].to_text();
            texts.push(t);
            i += 1;
        }
        assert(texts@.map_values(|t: String| t@) =~= self.profiles@.map_values(
            |p: Profile| profile_text(p@),
        ));
        push_lines(&mut out, &texts);
        out.append("\n");
        proof {
            assert(out@ =~= result_text(*self));
        }
        out
    }
}

} // verus!
