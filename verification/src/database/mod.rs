pub mod admin_model_controller;
pub mod badactor_model_controller;
pub mod migrate;
pub mod scores_model_controller;
pub mod serverconfig_model_controller;
pub mod user_model_controller;
