//! A one-dimensional grid game and a tabular Q-learning agent that learns to
//! play it, with the game's state machine and the agent's update rule
//! specified and proved.

pub mod agent;
pub mod agent_factory;
pub mod game_definition;
pub mod human_agent;
pub mod q_learning_agent;
pub mod quality;

pub use agent::Agent;
pub use game_definition::{Action, Game, MoveResult, State, TerminationPolicy, TileType};
pub use human_agent::Human;
pub use q_learning_agent::{ExplorationPolicy, QLearningBot};
pub use quality::QUALITY_ONE;
