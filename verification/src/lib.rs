//! A model of two minimal single-route HTTP services: a healthcheck service
//! answering `GET /api/v1/healthcheck` with a fixed JSON body, and a
//! hello-world service answering `GET /` with a fixed text body.
//!
//! The library holds everything the services decide or compute: which
//! (method, path) pair is registered, what response every request receives,
//! and the exact bytes of each canned body. Listening, serving and logging
//! are left to the embedding program.

pub mod response;
pub mod routing;
pub mod startup;
