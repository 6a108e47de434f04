pub mod html;
pub mod response;
pub mod routes;
