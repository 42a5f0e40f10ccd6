//! Passwordless authentication for the Growl backend: user identities,
//! one-time-password challenges, sessions and the decisions that the
//! sign-up, sign-in and login-status flows take between their calls to
//! the identity provider and the user store.

pub mod application;
pub mod clock;
pub mod cognito;
pub mod dto;
pub mod entities;
pub mod handlers;
pub mod interface;
pub mod jwt;
pub mod otp;
pub mod repository;
pub mod sms;
pub mod text;
pub mod values;
