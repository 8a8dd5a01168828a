pub mod crud_traits;
pub mod json;
pub mod other_impl;
pub mod record;
pub mod row_de;
pub mod sqlx_impl;
