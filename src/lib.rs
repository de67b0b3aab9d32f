//! Search front end for the robot marketplace: the filter model and its wire
//! form, the state of the search form and of the result list, the view model
//! of one listing, and the search proxy's decisions.
pub mod api;
pub mod search;
pub mod root;
pub mod robot;
pub mod proxy;
