//! The PHP images.

use vstd::prelude::*;
use crate::text::push_str;

verus! {

/// The Dockerfile of the PHP 8.1 image after its first line's `FROM`.
pub const DOCKERFILE_81_BODY: &'static str = "\n\nARG UID\nARG GID\n\nENV UID=${UID}\nENV GID=${GID}\n\nRUN mkdir -p /var/www/html\n\nWORKDIR /var/www/html\n\nCOPY --from=composer:latest /usr/bin/composer /usr/local/bin/composer\n\n# MacOS staff group's gid is 20, so is the dialout group in alpine linux. We're not using it, let's just remove it.\nRUN delgroup dialout\n\nRUN addgroup -g ${GID} --system laravel\nRUN adduser -G laravel --system -D -s /bin/sh -u ${UID} laravel\n\nRUN sed -i \"s/user = www-data/user = laravel/g\" /usr/local/etc/php-fpm.d/www.conf\nRUN sed -i \"s/group = www-data/group = laravel/g\" /usr/local/etc/php-fpm.d/www.conf\nRUN echo \"php_admin_flag[log_errors] = on\" >> /usr/local/etc/php-fpm.d/www.conf\n\nRUN apk add --no-cache libpng-dev libwebp-dev libjpeg-turbo-dev freetype-dev libzip-dev git && \\\n            docker-php-ext-configure gd --enable-gd --with-freetype --with-jpeg --with-webp && \\\n            docker-php-ext-install gd && \\\n            docker-php-ext-configure pcntl --enable-pcntl && \\\n            docker-php-ext-install pcntl && \\\n            docker-php-ext-install pdo pdo_mysql zip\n\nRUN mkdir -p /usr/src/php/ext/redis \\\n    && curl -L https://github.com/phpredis/phpredis/archive/5.3.4.tar.gz | tar xvz -C /usr/src/php/ext/redis --strip 1 \\\n    && echo 'redis' >> /usr/src/php-available-exts \\\n    && docker-php-ext-install redis\n\nUSER laravel\n\nCMD [\"php-fpm\", \"-y\", \"/usr/local/etc/php-fpm.conf\", \"-R\"]\n";

/// The Dockerfile of the PHP 8.1 image: built `FROM php:8.1-fpm-alpine`.
pub open spec fn dockerfile81_text() -> Seq<char> {
    "FROM php:8.1-fpm-alpine"@ + DOCKERFILE_81_BODY@
}

/// The Dockerfile of the PHP 8.1 image.
pub fn dockerfile81() -> (res: String)
    ensures
        res@ == dockerfile81_text(),
{
    let mut res = "FROM php:8.1-fpm-alpine".to_owned();
    push_str(&mut res, DOCKERFILE_81_BODY);
    res
}

/// The Dockerfile of the PHP 8.2 image after its first line's `FROM`.
pub const DOCKERFILE_82_BODY: &'static str = "\n\nARG UID\nARG GID\n\nENV UID=${UID}\nENV GID=${GID}\n\nRUN mkdir -p /var/www/html\n\nWORKDIR /var/www/html\n\nCOPY --from=composer:latest /usr/bin/composer /usr/local/bin/composer\n\n# MacOS staff group's gid is 20, so is the dialout group in alpine linux. We're not using it, let's just remove it.\nRUN delgroup dialout\n\nRUN addgroup -g ${GID} --system laravel\nRUN adduser -G laravel --system -D -s /bin/sh -u ${UID} laravel\n\nRUN sed -i \"s/user = www-data/user = laravel/g\" /usr/local/etc/php-fpm.d/www.conf\nRUN sed -i \"s/group = www-data/group = laravel/g\" /usr/local/etc/php-fpm.d/www.conf\nRUN echo \"php_admin_flag[log_errors] = on\" >> /usr/local/etc/php-fpm.d/www.conf\n\nRUN apk add --no-cache libpng-dev libwebp-dev libjpeg-turbo-dev freetype-dev libzip-dev git && \\\n            docker-php-ext-configure gd --enable-gd --with-freetype --with-jpeg --with-webp && \\\n            docker-php-ext-install gd && \\\n            docker-php-ext-configure pcntl --enable-pcntl && \\\n            docker-php-ext-install pcntl && \\\n            docker-php-ext-install pdo pdo_mysql zip\n\nRUN mkdir -p /usr/src/php/ext/redis \\\n    && curl -L https://github.com/phpredis/phpredis/archive/5.3.4.tar.gz | tar xvz -C /usr/src/php/ext/redis --strip 1 \\\n    && echo 'redis' >> /usr/src/php-available-exts \\\n    && docker-php-ext-install redis\n    \nUSER laravel\n\nCMD [\"php-fpm\", \"-y\", \"/usr/local/etc/php-fpm.conf\", \"-R\"]\n";

/// The Dockerfile of the PHP 8.2 image: built `FROM php:8.2-fpm-alpine`.
pub open spec fn dockerfile82_text() -> Seq<char> {
    "FROM php:8.2-fpm-alpine"@ + DOCKERFILE_82_BODY@
}

/// The Dockerfile of the PHP 8.2 image.
pub fn dockerfile82() -> (res: String)
    ensures
        res@ == dockerfile82_text(),
{
    let mut res = "FROM php:8.2-fpm-alpine".to_owned();
    push_str(&mut res, DOCKERFILE_82_BODY);
    res
}

} // verus!
