//! A connection manager that lets a generic connection pool keep connections
//! to a beanstalkd work-queue daemon.

pub mod client;
pub mod connection;
pub mod history;
pub mod manager;

pub use crate::connection::Connection;
pub use crate::manager::BeanstalkdConnectionManager;
pub use beanstalkc::Beanstalkc as Client;
pub use beanstalkc::BeanstalkcError as Error;
