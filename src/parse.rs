use vstd::prelude::*;
use crate::json::{
    elements_of, field_of, json_node_of, read_elements, read_field, read_node, read_string,
    read_strings, read_u64, string_of, strings_of, u64_of,
};
use crate::model::{
    profiles_view, scenarios_view, Profile, ProfileResult, ProfileScenario, ProfileScenarios,
    ProfileView, ScenarioView,
};
use crate::status::{status_of_name, ProfileStatus};

verus! {

/// The string held by field `key` of the object in `text`.
pub open spec fn string_field(text: Seq<char>, key: Seq<char>) -> Option<Seq<char>> {
    match field_of(text, key) {
        Some(t) => string_of(t),
        None => None,
    }
}

/// The unsigned integer held by field `key` of the object in `text`.
pub open spec fn u64_field(text: Seq<char>, key: Seq<char>) -> Option<u64> {
    match field_of(text, key) {
        Some(t) => u64_of(t),
        None => None,
    }
}

/// The strings of the array of strings held by field `key`.
pub open spec fn strings_field(text: Seq<char>, key: Seq<char>) -> Option<Seq<Seq<char>>> {
    match field_of(text, key) {
        Some(t) => strings_of(t),
        None => None,
    }
}

/// A profile summary: an object with the four fields, each of its type.
pub open spec fn profile_of(text: Seq<char>) -> Option<ProfileView> {
    match (
        string_field(text, "scenario_name"@),
        string_field(text, "status"@),
        u64_field(text, "time_in_ms"@),
        string_field(text, "profile_url"@),
    ) {
        (Some(scenario_name), Some(status), Some(time_in_ms), Some(profile_url)) => Some(
            ProfileView { scenario_name, status, time_in_ms, profile_url },
        ),
        _ => None,
    }
}

/// An array of profile summaries; `None` as soon as one element is none.
pub open spec fn profiles_of(text: Seq<char>) -> Option<Seq<ProfileView>> {
    match elements_of(text) {
        Some(items) => if forall|i: int| 0 <= i < items.len() ==> #[trigger] profile_of(items[i]).is_some() {
            Some(Seq::new(items.len(), |i: int| profile_of(items[i]).unwrap()))
        } else {
            None
        },
        None => None,
    }
}

/// A scenario: an object with a name, a time in milliseconds and two arrays
/// of screenshot URLs.
pub open spec fn scenario_of(text: Seq<char>) -> Option<ScenarioView> {
    match (
        string_field(text, "name"@),
        u64_field(text, "time"@),
        strings_field(text, "screenshots"@),
        strings_field(text, "thumbnail_screenshots"@),
    ) {
        (Some(name), Some(time), Some(screenshots), Some(thumbnail_screenshots)) => Some(
            ScenarioView { name, time, screenshots, thumbnail_screenshots },
        ),
        _ => None,
    }
}

/// An array of scenarios; `None` as soon as one element is none.
pub open spec fn scenarios_of(text: Seq<char>) -> Option<Seq<ScenarioView>> {
    match elements_of(text) {
        Some(items) => if forall|i: int| 0 <= i < items.len() ==> #[trigger] scenario_of(items[i]).is_some() {
            Some(Seq::new(items.len(), |i: int| scenario_of(items[i]).unwrap()))
        } else {
            None
        },
        None => None,
    }
}

/// The status that a job-result body reports.
pub open spec fn status_of_body(body: Seq<char>) -> ProfileStatus {
    status_of_name(string_field(body, "status"@))
}

/// The profiles of a job-result body, read tolerantly: anything but a
/// well-formed array of profiles gives none.
pub open spec fn tolerant_profiles(body: Seq<char>) -> Seq<ProfileView> {
    match field_of(body, "profiles"@) {
        Some(t) => match profiles_of(t) {
            Some(ps) => ps,
            None => Seq::empty(),
        },
        None => Seq::empty(),
    }
}

/// The snapshot a job-result body denotes: `None` where the body is not JSON;
/// profiles are read only for a finished job.
pub open spec fn result_of(body: Seq<char>) -> Option<(ProfileStatus, Seq<ProfileView>)> {
    if json_node_of(body).is_none() {
        None
    } else if status_of_body(body).spec_is_terminal() {
        Some((status_of_body(body), tolerant_profiles(body)))
    } else {
        Some((status_of_body(body), Seq::empty()))
    }
}

/// A snapshot of a job that is not over holds no profiles, whatever the
/// body held besides its status.
pub proof fn lemma_unfinished_results_hold_no_profiles(body: Seq<char>)
    ensures
        match result_of(body) {
            Some((status, profiles)) => !status.spec_is_terminal() ==> profiles.len() == 0,
            None => true,
        },
{
}

/// The scenario breakdown a profile-detail body denotes, read strictly.
pub open spec fn breakdown_of(body: Seq<char>) -> Option<Seq<ScenarioView>> {
    match field_of(body, "scenarios"@) {
        Some(t) => scenarios_of(t),
        None => None,
    }
}

/// Reads the string held by field `key` of the object in `text`.
pub fn read_string_field(text: &str, key: &str) -> (r: Option<String>)
    ensures
        match r {
            Some(s) => string_field(text@, key@) == Some(s@),
            None => string_field(text@, key@).is_none(),
        },
{
    match read_field(text, key) {
        Some(t) => read_string(t.as_str()),
        None => None,
    }
}

fn read_u64_field(text: &str, key: &str) -> (r: Option<u64>)
    ensures
        r == u64_field(text@, key@),
{
    match read_field(text, key) {
        Some(t) => read_u64(t.as_str()),
        None => None,
    }
}

fn read_strings_field(text: &str, key: &str) -> (r: Option<Vec<String>>)
    ensures
        match r {
            Some(v) => strings_field(text@, key@) == Some(v@.map_values(|s: String| s@)),
            None => strings_field(text@, key@).is_none(),
        },
{
    match read_field(text, key) {
        Some(t) => read_strings(t.as_str()),
        None => None,
    }
}

/// Reads one profile summary.
pub fn parse_profile(text: &str) -> (r: Option<Profile>)
    ensures
        match r {
            Some(p) => profile_of(text@) == Some(p@),
            None => profile_of(text@).is_none(),
        },
{
    let scenario_name = match read_string_field(text, "scenario_name") {
        Some(s) => s,
        None => return None,
    };
    let status = match read_string_field(text, "status") {
        Some(s) => s,
        None => return None,
    };
    let time_in_ms = match read_u64_field(text, "time_in_ms") {
        Some(n) => n,
        None => return None,
    };
    let profile_url = match read_string_field(text, "profile_url") {
        Some(s) => s,
        None => return None,
    };
    Some(Profile { scenario_name, status, time_in_ms, profile_url })
}

/// Reads an array of profile summaries, all or nothing.
pub fn parse_profiles(text: &str) -> (r: Option<Vec<Profile>>)
    ensures
        match r {
            Some(v) => profiles_of(text@) == Some(profiles_view(v@)),
            None => profiles_of(text@).is_none(),
        },
{
    let items = match read_elements(text) {
        Some(items) => items,
        None => return None,
    };
    let ghost texts = items@.map_values(|t: String| t@);
    let mut out: Vec<Profile> = Vec::new();
    let mut i: usize = 0;
    while i < items.len()
        invariant
            0 <= i <= items@.len(),
            texts == items@.map_values(|t: String| t@),
            elements_of(text@) == Some(texts),
            out@.len() == i,
            forall|j: int| 0 <= j < i ==> #[trigger] profile_of(texts[j]) == Some(out@[j]@),
        decreases items@.len() - i,
    {
        match parse_profile(items[i].as_str()) {
            Some(p) => out.push(p),
            None => {
                assert(profile_of(texts[i as int]).is_none());
                return None;
            },
        }
        i += 1;
    }
    assert(profiles_of(text@) == Some(profiles_view(out@))) by {
        assert forall|j: int| 0 <= j < texts.len() implies #[trigger] profile_of(texts[j]).is_some() by {
            assert(profile_of(texts[j]) == Some(out@[j]@));
        }
        assert(Seq::new(texts.len(), |j: int| profile_of(texts[j]).unwrap()) =~= profiles_view(out@));
    }
    Some(out)
}

/// Reads one scenario.
pub fn parse_scenario(text: &str) -> (r: Option<ProfileScenario>)
    ensures
        match r {
            Some(s) => scenario_of(text@) == Some(s@),
            None => scenario_of(text@).is_none(),
        },
{
    let name = match read_string_field(text, "name") {
        Some(s) => s,
        None => return None,
    };
    let time = match read_u64_field(text, "time") {
        Some(n) => n,
        None => return None,
    };
    let screenshots = match read_strings_field(text, "screenshots") {
        Some(v) => v,
        None => return None,
    };
    let thumbnail_screenshots = match read_strings_field(text, "thumbnail_screenshots") {
        Some(v) => v,
        None => return None,
    };
    Some(ProfileScenario { name, time, screenshots, thumbnail_screenshots })
}

/// Reads an array of scenarios, all or nothing.
pub fn parse_scenarios(text: &str) -> (r: Option<Vec<ProfileScenario>>)
    ensures
        match r {
            Some(v) => scenarios_of(text@) == Some(scenarios_view(v@)),
            None => scenarios_of(text@).is_none(),
        },
{
    let items = match read_elements(text) {
        Some(items) => items,
        None => return None,
    };
    let ghost texts = items@.map_values(|t: String| t@);
    let mut out: Vec<ProfileScenario> = Vec::new();
    let mut i: usize = 0;
    while i < items.len()
        invariant
            0 <= i <= items@.len(),
            texts == items@.map_values(|t: String| t@),
            elements_of(text@) == Some(texts),
            out@.len() == i,
            forall|j: int| 0 <= j < i ==> #[trigger] scenario_of(texts[j]) == Some(out@[j]@),
        decreases items@.len() - i,
    {
        match parse_scenario(items[i].as_str()) {
            Some(s) => out.push(s),
            None => {
                assert(scenario_of(texts[i as int]).is_none());
                return None;
            },
        }
        i += 1;
    }
    assert(scenarios_of(text@) == Some(scenarios_view(out@))) by {
        assert forall|j: int| 0 <= j < texts.len() implies #[trigger] scenario_of(texts[j]).is_some() by {
            assert(scenario_of(texts[j]) == Some(out@[j]@));
        }
        assert(Seq::new(texts.len(), |j: int| scenario_of(texts[j]).unwrap()) =~= scenarios_view(out@));
    }
    Some(out)
}

/// Maps a job-result body to a snapshot of the job. A body that is not JSON
/// gives `None`; otherwise the status is read exactly, and the profiles of a
/// finished job are read tolerantly, falling back to none.
pub fn parse_profile_result(body: &str) -> (r: Option<ProfileResult>)
    ensures
        match r {
            Some(res) => result_of(body@) == Some((res.status, profiles_view(res.profiles@)))
                && res.wf(),
            None => result_of(body@).is_none(),
        },
{
    if read_node(body).is_none() {
        return None;
    }
    let name = read_string_field(body, "status");
    let status = match &name {
        Some(s) => ProfileStatus::from_name(Some(s.as_str())),
        None => ProfileStatus::from_name(None),
    };
    if status.is_terminal() {
        let profiles = match read_field(body, "profiles") {
            Some(t) => match parse_profiles(t.as_str()) {
                Some(ps) => ps,
                None => Vec::new(),
            },
            None => Vec::new(),
        };
        assert(tolerant_profiles(body@) =~= profiles_view(profiles@));
        Some(ProfileResult { status, profiles })
    } else {
        let profiles: Vec<Profile> = Vec::new();
        assert(profiles_view(profiles@) =~= Seq::empty());
        Some(ProfileResult { status, profiles })
    }
}

/// Maps a profile-detail body to its scenarios. Any failure, of the body, of
/// its `scenarios` field or of one element, gives `None`.
pub fn parse_profile_scenarios(body: &str) -> (r: Option<ProfileScenarios>)
    ensures
        match r {
            Some(s) => breakdown_of(body@) == Some(scenarios_view(s.scenarios@)),
            None => breakdown_of(body@).is_none(),
        },
{
    match read_field(body, "scenarios") {
        Some(t) => match parse_scenarios(t.as_str()) {
            Some(scenarios) => Some(ProfileScenarios { scenarios }),
            None => None,
        },
        None => None,
    }
}

} // verus!
