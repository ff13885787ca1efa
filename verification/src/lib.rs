pub mod accounts;
pub mod activity;
pub mod ai_settings;
pub mod app;
pub mod app_commands;
pub mod app_events;
pub mod app_facts;
pub mod app_input;
pub mod app_panel;
pub mod app_permission;
pub mod app_review;
pub mod app_run;
pub mod automation;
pub mod commands;
pub mod delivery;
pub mod desk;
pub mod domain;
pub mod event_view;
pub mod events;
pub mod feed;
pub mod fields;
pub mod geometry;
pub mod gift;
pub mod input;
pub mod input_view;
pub mod keys;
pub mod menu_text;
pub mod meter;
pub mod notice;
pub mod panel;
pub mod panel_actions;
pub mod panel_details;
pub mod panel_edits;
pub mod panel_keys;
pub mod permission;
pub mod popups;
pub mod qr;
pub mod reports;
pub mod review;
pub mod review_text;
pub mod screen;
pub mod segments;
pub mod send;
pub mod startup;
pub mod startup_view;
pub mod status_view;
pub mod stream;
pub mod style;
pub mod text;
pub mod unicode;
