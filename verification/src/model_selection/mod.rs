pub mod proofs;
