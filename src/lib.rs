// The decision logic of a hybrid parallel deletion engine. Each directory is probed
// for its size and then removed either by one whole-subtree call (small) or by fanning
// out over its children (large); every task reports its own statistics and the parts
// are merged. The caller performs the filesystem calls and the threading, and hands
// each outcome to the functions here.
pub mod dispatch;
pub mod engine;
pub mod model;
pub mod policy;
pub mod probe;
pub mod stats;
