pub mod turbo_token;
