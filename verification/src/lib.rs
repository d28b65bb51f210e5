//! Suggests a pizza order for a party: given how many carnivores and how
//! many vegetarians attend, it derives per-variety pizza counts, garlic
//! bread and drinks, then tops the order up with randomly chosen varieties
//! until the total matches the demand.

pub mod demand;
pub mod order;
pub mod parse;
