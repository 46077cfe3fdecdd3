pub mod full_math;
