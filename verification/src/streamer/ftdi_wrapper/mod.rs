pub mod ft_status;
