pub mod broadcast_service;
pub mod master_service;
pub mod peers_lemmas;
pub mod peers_model;
pub mod peers_service;
pub mod proxy_service;
