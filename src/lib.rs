//! Marketplace ledger: users with roles, categories, products, listings and
//! purchase orders, with the stock and uniqueness rules that tie them together.

pub mod cuenta;
pub mod errores;
pub mod normalizacion;
pub mod entidades;
pub mod sistema;
pub mod gestion_usuarios;
pub mod gestion_categorias;
pub mod gestion_productos;
pub mod gestion_publicaciones;
pub mod gestion_ordenes;
pub mod mensajes;
pub mod decimal;
pub mod leyes;
pub mod restauracion;
pub mod usuarios;
