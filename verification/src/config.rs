//! The persisted configuration the publish step consumes: an optional
//! GitHub access token. Loading and saving the file is the binary's
//! business; the flows only read the value.

use vstd::prelude::*;

verus! {

/// The application configuration record.
#[derive(Clone, Debug, PartialEq, Eq)]
pub struct Config {
    /// Personal access token for the GitHub API, when configured.
    pub github_token: Option<String>,
}

/// Mathematical model of a [`Config`].
#[verifier::ext_equal]
pub ghost struct ConfigView {
    pub github_token: Option<Seq<char>>,
}

impl View for Config {
    type V = ConfigView;

    open spec fn view(&self) -> ConfigView {
        ConfigView {
            github_token: match self.github_token {
                Some(ref t) => Some(t@),
                None => None,
            },
        }
    }
}

impl Default for Config {
    /// A fresh configuration holds no token.
    fn default() -> (r: Config)
        ensures
            r@.github_token is None,
    {
        Config { github_token: None }
    }
}

} // verus!
