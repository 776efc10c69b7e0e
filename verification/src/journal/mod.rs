pub mod canonical;
pub mod head;
pub mod snapshot;
pub mod order;
pub mod streams;
pub mod replay;
pub mod sources;
pub mod commit;
