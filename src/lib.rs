//! Session state for an interactive Kubernetes shell: the selected object, the
//! last fetched list, user aliases, running port forwards and the prompt.

mod alias;
mod config;
mod env;
mod forward;
mod objects;
mod prompt;

pub use alias::{Alias, ExpandedAlias};
pub use config::{ClickConfig, CompletionType, EditMode};
pub use env::{Cluster, Env, RunError};
pub use forward::PortForward;
pub use objects::{KObj, KObjView, LastList, Metadata, PodItem, RawItem, SelectOutcome};
pub use prompt::Colour;
