//! The parameters that the server is started with.
use vstd::prelude::*;

verus! {

/// First tuning value handed to the server. What it tunes is the server's
/// business.
pub const FIRST_TUNING: usize = 2;

/// Second tuning value handed to the server.
pub const SECOND_TUNING: usize = 2;

/// The port on which the server listens.
pub const PORT: u16 = 3000;

/// One call of the server's start operation: the cache directory that the
/// host named, and the three fixed values.
#[derive(Clone, Debug, PartialEq, Eq)]
pub struct ServerParameters {
    pub cache_folder: String,
    pub first_tuning: usize,
    pub second_tuning: usize,
    pub port: u16,
}

/// `ServerParameters` as mathematical values.
pub struct ParametersModel {
    pub cache_folder: Seq<char>,
    pub first_tuning: int,
    pub second_tuning: int,
    pub port: int,
}

impl View for ServerParameters {
    type V = ParametersModel;

    open spec fn view(&self) -> ParametersModel {
        ParametersModel {
            cache_folder: self.cache_folder@,
            first_tuning: self.first_tuning as int,
            second_tuning: self.second_tuning as int,
            port: self.port as int,
        }
    }
}

/// The parameters for a cache directory: the directory as it was given, then
/// 2, 2 and port 3000.
pub open spec fn parameters_for(cache_folder: Seq<char>) -> ParametersModel {
    ParametersModel { cache_folder, first_tuning: 2, second_tuning: 2, port: 3000 }
}

impl ServerParameters {
    /// Takes the cache directory unchanged and adds the fixed values.
    pub fn for_cache_folder(cache_folder: String) -> (parameters: ServerParameters)
        ensures
            parameters@ == parameters_for(cache_folder@),
    {
        ServerParameters {
            cache_folder,
            first_tuning: FIRST_TUNING,
            second_tuning: SECOND_TUNING,
            port: PORT,
        }
    }
}

} // verus!
