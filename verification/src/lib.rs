//! Approximate solutions to the traveling salesman problem on a complete
//! directed weighted graph, by two competing heuristics: an ant-colony
//! search over a shared pheromone matrix, and a deterministic greedy
//! nearest-neighbour baseline. Both validate their result with the same
//! guard and score it with the same objective function.

pub mod blad;
pub mod feromony;
pub mod graf;
pub mod licznik;
pub mod losowanie;
pub mod mrowka;
pub mod mrowkowy;
pub mod trasa;
pub mod zachlanny;
