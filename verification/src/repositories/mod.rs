pub mod in_memory_user_repository;
pub mod sqlite_user_repository;

pub use in_memory_user_repository::InMemoryUserRepository;
