//! Real-time broadcast chat service, verified: the envelope model and its
//! wire codec, the session registry, the bounded broadcaster, the command
//! processor and the per-connection state machine, with the client-side
//! helpers. Beside it: a DNS message codec and responder, a log-line
//! parser and writer, and a file manager's path handling.

pub mod nom;
pub mod externe;
pub mod message;
pub mod format;
pub mod codec;
pub mod diffuseur;
pub mod registre;
pub mod commandes;
pub mod serveur;
pub mod connexion;
pub mod dns;
pub mod client;
pub mod journal;
pub mod affichage;
pub mod fichiers;
