use vstd::prelude::*;
use crate::status::ProfileStatus;
use core::time::Duration;

verus! {

/// The summary of one analysed scenario of a job.
pub struct Profile {
    pub scenario_name: String,
    pub status: String,
    pub time_in_ms: u64,
    pub profile_url: String,
}

pub struct ProfileView {
    pub scenario_name: Seq<char>,
    pub status: Seq<char>,
    pub time_in_ms: u64,
    pub profile_url: Seq<char>,
}

impl View for Profile {
    type V = ProfileView;

    open spec fn view(&self) -> ProfileView {
        ProfileView {
            scenario_name: self.scenario_name@,
            status: self.status@,
            time_in_ms: self.time_in_ms,
            profile_url: self.profile_url@,
        }
    }
}

impl Profile {
    pub fn get_scenario_name(&self) -> (r: &String)
        ensures
            r@ == self.scenario_name@,
    {
        &self.scenario_name
    }

    pub fn get_time_in_ms(&self) -> (r: u64)
        ensures
            r == self.time_in_ms,
    {
        self.time_in_ms
    }

    pub fn get_status(&self) -> (r: &String)
        ensures
            r@ == self.status@,
    {
        &self.status
    }
}

/// The snapshot of a job that one poll returns: its status and, once the job
/// is over, its profiles.
pub struct ProfileResult {
    pub status: ProfileStatus,
    pub profiles: Vec<Profile>,
}

pub open spec fn profiles_view(ps: Seq<Profile>) -> Seq<ProfileView> {
    ps.map_values(|p: Profile| p@)
}

impl ProfileResult {
    pub open spec fn spec_status(&self) -> ProfileStatus {
        self.status
    }

    /// Profiles are only ever held by a result whose job is over.
    pub open spec fn wf(&self) -> bool {
        self.profiles@.len() > 0 ==> self.status.spec_is_terminal()
    }

    pub fn get_status(&self) -> (r: ProfileStatus)
        ensures
            r == self.status,
    {
        self.status
    }
}

/// The detailed breakdown of one profile.
pub struct ProfileScenarios {
    pub scenarios: Vec<ProfileScenario>,
}

pub open spec fn scenarios_view(ss: Seq<ProfileScenario>) -> Seq<ScenarioView> {
    ss.map_values(|s: ProfileScenario| s@)
}

impl ProfileScenarios {
    pub open spec fn spec_scenarios(&self) -> Seq<ProfileScenario> {
        self.scenarios@
    }

    pub fn get_scenarios(&self) -> (r: &Vec<ProfileScenario>)
        ensures
            r@ == self.scenarios@,
    {
        &self.scenarios
    }
}

/// One traced interaction flow: its timing and its screenshots.
pub struct ProfileScenario {
    pub name: String,
    pub time: u64,
    pub screenshots: Vec<String>,
    pub thumbnail_screenshots: Vec<String>,
}

pub struct ScenarioView {
    pub name: Seq<char>,
    pub time: u64,
    pub screenshots: Seq<Seq<char>>,
    pub thumbnail_screenshots: Seq<Seq<char>>,
}

impl View for ProfileScenario {
    type V = ScenarioView;

    open spec fn view(&self) -> ScenarioView {
        ScenarioView {
            name: self.name@,
            time: self.time,
            screenshots: self.screenshots@.map_values(|s: String| s@),
            thumbnail_screenshots: self.thumbnail_screenshots@.map_values(|s: String| s@),
        }
    }
}

/// What Duration::from_millis builds from a count of milliseconds.
pub uninterp spec fn duration_from_millis(ms: u64) -> Duration;

/// Relies on Duration::from_millis: the duration of `ms` milliseconds.
pub assume_specification[ Duration::from_millis ](millis: u64) -> (r: Duration)
    ensures
        r == duration_from_millis(millis),
;

impl ProfileScenario {
    pub fn get_name(&self) -> (r: &String)
        ensures
            r@ == self.name@,
    {
        &self.name
    }

    /// The scenario's time, the given count of milliseconds.
    pub fn get_time(&self) -> (r: Duration)
        ensures
            r == duration_from_millis(self.time),
    {
        Duration::from_millis(self.time)
    }

    pub fn get_time_in_ms(&self) -> (r: u64)
        ensures
            r == self.time,
    {
        self.time
    }

    pub fn get_screenshots(&self) -> (r: &Vec<String>)
        ensures
            r@ == self.screenshots@,
    {
        &self.screenshots
    }

    pub fn get_thumbnail_screenshots(&self) -> (r: &Vec<String>)
        ensures
            r@ == self.thumbnail_screenshots@,
    {
        &self.thumbnail_screenshots
    }
}

} // verus!
