use vstd::prelude::*;

verus! {

/// The lifecycle state of a profiling job.
///
/// `Complete` and `Failed` are terminal, `Crawling` and `Pending` are in
/// progress, and `Error` stands for a response whose status the client did
/// not recognise.
#[derive(Clone, Copy, Debug, PartialEq, Eq, Structural)]
pub enum ProfileStatus {
    Crawling,
    Pending,
    Complete,
    Failed,
    Error,
}

/// The status that a remote status string denotes: the four names match
/// exactly, anything else is `Error`.
pub open spec fn status_of_name(name: Option<Seq<char>>) -> ProfileStatus {
    match name {
        Some(s) => if s == "Crawling"@ {
            ProfileStatus::Crawling
        } else if s == "Pending"@ {
            ProfileStatus::Pending
        } else if s == "Complete"@ {
            ProfileStatus::Complete
        } else if s == "Failed"@ {
            ProfileStatus::Failed
        } else {
            ProfileStatus::Error
        },
        None => ProfileStatus::Error,
    }
}

/// The text of a status, as it is displayed.
pub open spec fn status_text(s: ProfileStatus) -> Seq<char> {
    match s {
        ProfileStatus::Crawling => "Crawling"@,
        ProfileStatus::Pending => "Pending"@,
        ProfileStatus::Complete => "Complete"@,
        ProfileStatus::Failed => "Failed"@,
        ProfileStatus::Error => "Error"@,
    }
}

/// Each of the four remote names maps to its own status and only it does;
/// every other name, and a missing one, maps to `Error`.
pub proof fn lemma_status_names(name: Seq<char>)
    ensures
        (status_of_name(Some(name)) == ProfileStatus::Crawling) <==> name == "Crawling"@,
        (status_of_name(Some(name)) == ProfileStatus::Pending) <==> name == "Pending"@,
        (status_of_name(Some(name)) == ProfileStatus::Complete) <==> name == "Complete"@,
        (status_of_name(Some(name)) == ProfileStatus::Failed) <==> name == "Failed"@,
        (status_of_name(Some(name)) == ProfileStatus::Error) <==> (name != "Crawling"@ && name
            != "Pending"@ && name != "Complete"@ && name != "Failed"@),
        status_of_name(None) == ProfileStatus::Error,
{
    reveal_strlit("Crawling");
    reveal_strlit("Pending");
    reveal_strlit("Complete");
    reveal_strlit("Failed");
    assert("Crawling"@[1] != "Complete"@[1]);
    assert("Failed"@.len() != "Crawling"@.len() && "Failed"@.len() != "Pending"@.len());
    assert("Pending"@.len() != "Crawling"@.len() && "Pending"@.len() != "Complete"@.len());
}

impl ProfileStatus {
    pub open spec fn spec_is_terminal(self) -> bool {
        self == ProfileStatus::Complete || self == ProfileStatus::Failed
    }

    /// Maps the remote status field to a status; a missing or non-string
    /// field is `None`.
    pub fn from_name(name: Option<&str>) -> (r: ProfileStatus)
        ensures
            r == status_of_name(
                match name {
                    Some(s) => Some(s@),
                    None => None,
                },
            ),
    {
        match name {
            None => ProfileStatus::Error,
            Some(s) => {
                let s = String::from_str(s);
                if s == String::from_str("Crawling") {
                    ProfileStatus::Crawling
                } else if s == String::from_str("Pending") {
                    ProfileStatus::Pending
                } else if s == String::from_str("Complete") {
                    ProfileStatus::Complete
                } else if s == String::from_str("Failed") {
                    ProfileStatus::Failed
                } else {
                    ProfileStatus::Error
                }
            },
        }
    }

    /// True of `Complete` and `Failed`, the states a job never leaves.
    pub fn is_terminal(&self) -> (r: bool)
        ensures
            r == self.spec_is_terminal(),
    {
        match self {
            ProfileStatus::Complete | ProfileStatus::Failed => true,
            _ => false,
        }
    }

    /// The display text of the status.
    pub fn to_text(&self) -> (r: String)
        ensures
            r@ == status_text(*self),
    {
        match self {
            ProfileStatus::Crawling => String::from_str("Crawling"),
            ProfileStatus::Pending => String::from_str("Pending"),
            ProfileStatus::Complete => String::from_str("Complete"),
            ProfileStatus::Failed => String::from_str("Failed"),
            ProfileStatus::Error => String::from_str("Error"),
        }
    }
}

} // verus!
