pub mod responder;
pub mod route_map;
