//! The launcher window's logic: what it decides, computes and says,
//! separated from the window system, the network and the disk.

pub mod acceptance;
pub mod brand;
pub mod chemins;
pub mod cinematic;
pub mod cinematique;
pub mod commandes;
pub mod commands;
pub mod csp;
pub mod demarrage;
pub mod dev;
pub mod diagnostic;
pub mod fenetres;
pub mod game_session;
pub mod journal;
pub mod log;
pub mod marque;
pub mod navigation;
pub mod partie;
pub mod paths;
pub mod phase;
pub mod recette;
pub mod startup;
pub mod text;
pub mod tracker;
pub mod webkit;
