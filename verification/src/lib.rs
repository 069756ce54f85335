//! Verified core of the profile management backend: error mapping, text
//! normalisation, resume access rules, the realtime notification hub and the
//! request/response decisions of the resume and authentication services.

pub mod error;
pub mod text;
pub mod logging;
pub mod realtime;
pub mod ordering;
pub mod models;
pub mod operation;
pub mod skills;
pub mod languages;
pub mod frameworks;
pub mod education;
pub mod work_experiences;
pub mod portfolio_projects;
pub mod resume_ops;
pub mod resumes;
pub mod auth;
pub mod ws;
pub mod handlers;
pub mod proxy;
pub mod openapi;
