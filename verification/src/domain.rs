pub mod subscriber_email;
