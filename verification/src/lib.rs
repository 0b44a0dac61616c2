//! Gateway-side core of an aviation-asset service: identifier
//! validation, translation between the REST representations and the
//! storage service's wire records, field-mask update semantics, the
//! health aggregator's verdict, and the backend connection cache's
//! state machine. The web and RPC transports around it live outside
//! the library and hand it plain values.

pub mod aircraft;
pub mod group;
pub mod grpc_clients;
pub mod grpc_server;
pub mod health;
pub mod ids;
pub mod mask;
pub mod openapi;
pub mod operator;
pub mod rest_types;
pub mod status;
pub mod storage;
pub mod structs;
pub mod update;
pub mod vertipad;
pub mod vertiport;
