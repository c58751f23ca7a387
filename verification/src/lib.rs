use vstd::prelude::*;

pub mod map;
pub mod rng;
pub mod session;
pub mod skills;
pub mod progression;
pub mod rune;
pub mod puzzle;
pub mod states;
pub mod feedback;
pub mod text;
pub mod shop;
pub mod event;
pub mod event_choices;
pub mod enemy;
pub mod pvp;
pub mod combo;
pub mod rewards;
pub mod event_apply;
pub mod report;
