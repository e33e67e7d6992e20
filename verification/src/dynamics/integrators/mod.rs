pub mod verlet;
