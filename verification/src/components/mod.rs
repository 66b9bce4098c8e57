//! The pieces on the field: the ball, the paddles and the score board.
pub mod ball;
pub mod paddle;
pub mod score;
